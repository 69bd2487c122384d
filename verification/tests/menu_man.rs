use eldenring::menu_man::{
    CSChrMenuFlags, CSMenuInputFlags, CSMenuManImp, CSMenuManStreamStateE0,
    CSMenuManTailFlags898, CSMenuShownMenuFlags, CSMenuManStateBlock7a0TextFlags,
    ChrMenuFlags, PopupMenuInputBuffer, PopupMenuTextSource, PopupMoveMapFlags,
    BackScreenData, CSMenuManStateBlock7a0, CSMenuManStateBlock90, CSPlayerMenuCtrl,
    LoadingScreenData, NullPlayerMenuCtrl, CS_MENU_INPUT_FLAG_COUNT,
};

fn stream_state(flag: u8) -> CSMenuManStreamStateE0 {
    CSMenuManStreamStateE0 {
        state_prefix_00: [0; 4],
        game_data_version: 0,
        refresh_requested_flag: flag,
        state_tail_09: [0; 7],
    }
}

fn tail_flags(top: u8, help: u8) -> CSMenuManTailFlags898 {
    CSMenuManTailFlags898 {
        enabled: 1,
        top_menu_debug_enabled: top,
        help_menu_workaround_enabled: help,
        state_flag_03: 0,
        state_flag_04: 0,
        state_flag_05: 0,
        reserved_tail_06: [0; 2],
    }
}

fn input_buffer(prompt: u8, choice: u8) -> PopupMenuInputBuffer {
    PopupMenuInputBuffer {
        prompt_message_id: 0,
        first_choice_message_id: 0,
        second_choice_message_id: 0,
        _message_pad_0c: 0,
        prompt_text_source: prompt,
        choice_text_source: choice,
        _text_source_pad_12: 0,
        first_choice_disabled: false,
        second_choice_disabled: false,
        _choice_flag_pad_15: [0; 3],
        popup_input_word_18: 0,
        selection_result_index: -1,
        cancel_result_value: 0,
        _cancel_result_pad_24: 0,
    }
}

fn menu_man() -> CSMenuManImp {
    CSMenuManImp {
        vftable: 0,
        menu_data: None,
        player_status_calculator: None,
        title_menu_job_wait_active: false,
        title_menu_job_wait_latch: false,
        disable_mouse_cursor: false,
        player_death_ui_cleanup_latch: false,
        shown_menu_flags: CSMenuShownMenuFlags(0),
        unresolved_prefix_byte_20: 0,
        loading_screen_prompt_job_enabled: false,
        mtmskbnd_file_cap: None,
        popup_menu: None,
        window_job: None,
        menu_man_state_block_90: CSMenuManStateBlock90 {
            input_flags: [CSMenuInputFlags(0); CS_MENU_INPUT_FLAG_COUNT],
            _pad_047: 0,
            state_word_48: 0,
        },
        stream_state_e0: CSMenuManStreamStateE0 {
            state_prefix_00: [0; 0x4],
            game_data_version: 0,
            refresh_requested_flag: 0,
            state_tail_09: [0; 0x7],
        },
        stream_flag_f0: false,
        stream_flag_f1: false,
        dword_lookup_vector_f8: Vec::new(),
        reset_state_118_le_words: [0; 0x2],
        menu_text_state_120_le_words: [0; 0x2],
        menu_text_state_128_le_words: [0; 0x2],
        menu_text_state_130_le_words: [0; 0x2],
        menu_text_dirty_138: false,
        menu_text_shadow_active_139: false,
        disable_save_menu: 0,
        state_word_140: 0,
        indexed_state_word_144: 0,
        state_word_148: 0,
        menu_text_state_14c: 0,
        menu_text_state_150: 0,
        indexed_state_words_154: [0; 0x7],
        state_word_170: 0,
        state_word_174: 0,
        state_word_178: 0,
        indexed_state_words_17c: [0; 0x3],
        status_state_188: 0,
        indexed_state_words_18c: [0; 0x4],
        state_value_19c: 0,
        indexed_state_words_1a0: [0; 0x6],
        state_value_1b8: 0,
        indexed_state_word_1bc: 0,
        state_word_1c0: 0,
        indexed_state_words_1c4: [0; 0x4],
        state_value_1d4: 0,
        state_value_1d8: 0,
        indexed_state_words_1dc: [0; 0x4],
        state_value_1ec: 0,
        indexed_state_words_1f0: [0; 0x6],
        state_word_208: 0,
        indexed_state_words_20c: [0; 0x9],
        popup_selection_result_index: 0,
        indexed_state_words_234: [0; 0x7],
        state_word_250: 0,
        indexed_state_words_254: [0; 0x3],
        state_value_260: 0,
        indexed_state_words_264: [0; 0x13],
        state_flag_2b0: 0,
        indexed_state_words_2b4: [0; 0xb],
        state_word_2e0: 0,
        state_value_2e4: 0,
        indexed_state_words_2e8: [0; 0xf],
        menu_brake: 0,
        state_word_328: 0,
        state_value_32c: 0,
        reset_preserved_word_330: 0,
        indexed_state_word_334: 0,
        reset_preserved_word_338: 0,
        indexed_state_word_33c: 0,
        status_state_340: 0,
        state_value_344: 0,
        indexed_state_words_348: [0; 0x5],
        state_value_35c: 0,
        indexed_state_word_360: 0,
        state_value_364: 0,
        indexed_state_words_368: [0; 0x2],
        state_word_370: 0,
        indexed_state_words_374: [0; 0x7],
        state_value_390: 0,
        state_value_394: 0,
        state_value_398: 0,
        indexed_state_words_39c: [0; 0x7],
        state_word_3b8: 0,
        indexed_state_words_3bc: [0; 0x11],
        state_word_400: 0,
        indexed_state_words_404: [0; 0x11],
        state_word_448: 0,
        indexed_state_words_44c: [0; 0xc],
        state_word_47c: 0,
        state_word_480: 0,
        state_word_484: 0,
        state_word_488: 0,
        indexed_state_word_48c: 0,
        state_word_490: 0,
        event_state_flag_494: 0,
        event_state_flag_498: 0,
        indexed_state_word_49c: 0,
        transition_state_flag_4a0: 0,
        indexed_state_words_4a4: [0; 0xd],
        state_word_4d8: 0,
        indexed_state_words_4dc: [0; 0x11],
        state_word_520: 0,
        indexed_state_words_524: [0; 0x11],
        state_word_568: 0,
        indexed_state_words_56c: [0; 0x27],
        reset_state_words_608: [0; 0x13],
        indexed_state_word_654: 0,
        cutscene_menu_block_override: false,
        player_menu_ctrl: CSPlayerMenuCtrl {
            vftable: 0,
            item_use_menu_phase: 0,
            bonfire_warp_stage: 0,
            chr_menu_flags: CSChrMenuFlags {
                vftable: 0,
                flags: ChrMenuFlags(0),
            },
            selected_slot_index: 0,
            is_sign_puddle: false,
            is_break_in_multi_region: 0,
            _pad_03e: [0; 0x2],
            kick_select_menu_phase: 0,
            kick_select_menu_opened: false,
            _pad_045: [0; 0x3],
        },
        null_player_menu_ctrl: NullPlayerMenuCtrl {
            vftable: 0,
            state: 0,
            fallback_reference: None,
        },
        back_screen_data: BackScreenData {
            vftable: 0,
            active: false,
        },
        loading_screen_data: LoadingScreenData {
            vftable: 0,
            active: false,
            transition_state: 0,
            transition_flags: 0,
            loading_screen_id: 0,
            fade_start: 0,
            fade_end: 0,
            fade_duration: 0,
            reserved_024: 0,
        },
        loading_screen_prompt_reference: None,
        menu_man_state_block_7a0: CSMenuManStateBlock7a0 {
            active: false,
            unresolved_status_text_word_68: 0,
            _pad_6c: [0; 0x4],
            text_processing_flags: CSMenuManStateBlock7a0TextFlags(0),
            text_request_phase: 0,
            text_result_kind: 0,
            status_text_normalization_fallback: false,
            status_text_processing_pending: false,
            _pad_b2: [0; 0x6],
        },
        text_processing_result: 0,
        _pad_859: 0,
        unresolved_text_processing_tail_flag: false,
        system_announce_view_model: None,
        debug_menu_root: None,
        tail_flags_898: CSMenuManTailFlags898 {
            enabled: 0,
            top_menu_debug_enabled: 0,
            help_menu_workaround_enabled: 0,
            state_flag_03: 0,
            state_flag_04: 0,
            state_flag_05: 0,
            reserved_tail_06: [0; 0x2],
        },
    }
}

#[test]
fn refresh_requested_reads_flag_byte() {
    assert!(!stream_state(0).refresh_requested());
    assert!(stream_state(1).refresh_requested());
    assert!(stream_state(0x80).refresh_requested());
}

#[test]
fn tail_flags_read_their_bytes() {
    let flags = tail_flags(0, 0);
    assert!(!flags.top_menu_debug_enabled());
    assert!(!flags.help_menu_workaround_enabled());
    let flags = tail_flags(1, 0);
    assert!(flags.top_menu_debug_enabled());
    assert!(!flags.help_menu_workaround_enabled());
    let flags = tail_flags(0, 2);
    assert!(!flags.top_menu_debug_enabled());
    assert!(flags.help_menu_workaround_enabled());
}

#[test]
fn text_source_names_known_tables() {
    let expected = [
        PopupMenuTextSource::MsgRepository,
        PopupMenuTextSource::ActionButton,
        PopupMenuTextSource::EventTextForTalk,
        PopupMenuTextSource::EventTextForMap,
        PopupMenuTextSource::GoodsDialog,
        PopupMenuTextSource::MenuTextEntry,
        PopupMenuTextSource::Dialogues,
        PopupMenuTextSource::NetworkMessage,
    ];
    for (raw, source) in expected.iter().enumerate() {
        assert_eq!(*source, PopupMenuTextSource::from_raw(raw as u8));
        assert_eq!(raw as u8, source.raw());
    }
    assert_eq!(PopupMenuTextSource::Unknown(8), PopupMenuTextSource::from_raw(8));
    assert_eq!(PopupMenuTextSource::Unknown(255), PopupMenuTextSource::from_raw(255));
}

#[test]
fn text_source_round_trips_every_byte() {
    for raw in 0..=u8::MAX {
        assert_eq!(raw, PopupMenuTextSource::from_raw(raw).raw());
    }
}

#[test]
fn text_source_non_canonical_unknown_collapses() {
    // `Unknown(3)` names the same byte as `EventTextForMap`.
    assert_eq!(3, PopupMenuTextSource::Unknown(3).raw());
    assert_eq!(
        PopupMenuTextSource::EventTextForMap,
        PopupMenuTextSource::from_raw(PopupMenuTextSource::Unknown(3).raw())
    );
}

#[test]
fn input_buffer_text_sources_are_checked_views() {
    let buffer = input_buffer(5, 200);
    assert_eq!(PopupMenuTextSource::MenuTextEntry, buffer.prompt_text_source());
    assert_eq!(PopupMenuTextSource::Unknown(200), buffer.choice_text_source());
    assert_eq!(200, buffer.choice_text_source().raw());
    let buffer = input_buffer(7, 0);
    assert_eq!(PopupMenuTextSource::NetworkMessage, buffer.prompt_text_source());
    assert_eq!(PopupMenuTextSource::MsgRepository, buffer.choice_text_source());
}

#[test]
fn input_flags_bits() {
    let none = CSMenuInputFlags(0);
    assert!(!none.is_down());
    assert!(!none.triggered());
    let down = CSMenuInputFlags(1);
    assert!(down.is_down());
    assert!(!down.triggered());
    let both = CSMenuInputFlags(3);
    assert!(both.is_down());
    assert!(both.triggered());
    assert_eq!(3, both.0 & 3);
    let edge = CSMenuInputFlags(0b10);
    assert!(!edge.is_down());
    assert!(edge.triggered());
}

#[test]
fn shown_menu_flags_bits() {
    let flags = CSMenuShownMenuFlags((1 << 0) | (1 << 5) | (1 << 17) | (1 << 20));
    assert!(flags.input_1d());
    assert!(!flags.input_2c_or_forced());
    assert!(flags.fe_overlay_active());
    assert!(flags.input_32());
    assert!(!flags.input_25());
    assert!(flags.menu_brake_active());
    assert!(!flags.input_31_or_popup_top_menu());
    let flags = CSMenuShownMenuFlags(1 << 16);
    // bit 16 carries no named flag
    assert!(!flags.input_25());
    assert!(!flags.input_32());
}

#[test]
fn text_flags_and_move_map_flags_bits() {
    let text = CSMenuManStateBlock7a0TextFlags(0b10);
    assert!(!text.source_text_flag0());
    assert!(text.source_text_flag1());
    assert!(PopupMoveMapFlags(1 << 8).menu_input_1c_inactive());
    assert!(!PopupMoveMapFlags(0xfeff).menu_input_1c_inactive());
}

#[test]
fn pause_menu_state_write_reads_back_and_keeps_other_bits() {
    let mut flags = ChrMenuFlags(0xffff_fff0);
    assert!(!flags.pause_menu_state());
    flags.set_pause_menu_state(true);
    assert!(flags.pause_menu_state());
    assert_eq!(0xffff_fff8, flags.0);
    flags.set_pause_menu_state(false);
    assert!(!flags.pause_menu_state());
    assert_eq!(0xffff_fff0, flags.0);
    let mut chr = CSChrMenuFlags { vftable: 0, flags: ChrMenuFlags(0x8) };
    chr.flags.set_pause_menu_state(true);
    assert_eq!(0x8, chr.flags.0);
}

#[test]
fn menu_input_flags_at_is_bounds_checked() {
    let mut man = menu_man();
    man.menu_man_state_block_90.input_flags[0x1c] = CSMenuInputFlags(3);
    man.menu_man_state_block_90.input_flags[CS_MENU_INPUT_FLAG_COUNT - 1] = CSMenuInputFlags(1);
    assert_eq!(Some(CSMenuInputFlags(3)), man.menu_input_flags_at(0x1c));
    assert_eq!(Some(CSMenuInputFlags(0)), man.menu_input_flags_at(0));
    assert_eq!(Some(CSMenuInputFlags(1)), man.menu_input_flags_at(0x46));
    assert_eq!(None, man.menu_input_flags_at(0x47));
    assert_eq!(None, man.menu_input_flags_at(usize::MAX));
    assert_eq!(CS_MENU_INPUT_FLAG_COUNT, man.menu_input_flags().len());
}

#[test]
fn bitfield_debug_text_lists_word_and_named_bits() {
    assert_eq!(
        "CSMenuInputFlags { .0: 3, is_down: true, triggered: true }",
        CSMenuInputFlags(3).debug_text()
    );
    assert_eq!(
        "CSMenuInputFlags { .0: 2, is_down: false, triggered: true }",
        CSMenuInputFlags(2).debug_text()
    );
    assert_eq!(
        "ChrMenuFlags { .0: 4294967288, pause_menu_state: true }",
        ChrMenuFlags(0xffff_fff8).debug_text()
    );
    assert_eq!(
        "PopupMoveMapFlags { .0: 256, menu_input_1c_inactive: true }",
        PopupMoveMapFlags(0x100).debug_text()
    );
    assert_eq!(
        "CSMenuManStateBlock7a0TextFlags { .0: 1, source_text_flag0: true, source_text_flag1: false }",
        CSMenuManStateBlock7a0TextFlags(1).debug_text()
    );
    assert_eq!(
        "CSMenuShownMenuFlags { .0: 1179649, input_1d: true, input_2c_or_forced: false, \
         player_menu_state_active: false, input_2e: false, input_1c: false, \
         fe_overlay_active: false, input_1f: false, input_24: false, input_3d: false, \
         input_26: false, input_3c: false, input_3e: false, input_30: false, input_21: false, \
         input_40: false, input_25: false, input_32: true, input_41: false, \
         input_31_or_popup_top_menu: false, menu_brake_active: true }",
        CSMenuShownMenuFlags((1 << 0) | (1 << 17) | (1 << 20)).debug_text()
    );
}
