use vstd::prelude::*;

use crate::bits::{bit_u16, bit_u32, bit_u8, with_bit_u32};
use crate::display_text::{
    append_decimal, append_field, append_literal, decimal_digits, field_text, lemma_shows_left,
    lemma_shows_right, lemma_shows_self, shows,
};
use crate::debug_menu::FD4DebugMenuNode;
use crate::ptr::NativePtr;

verus! {

pub const STATUS_MESSAGE_DEMIGOD_FELLED: i32 = 1;
pub const STATUS_MESSAGE_LEGEND_FELLED: i32 = 2;
pub const STATUS_MESSAGE_GREAT_ENEMY_FELLED: i32 = 3;
pub const STATUS_MESSAGE_ENEMY_FELLED: i32 = 4;
pub const STATUS_MESSAGE_YOU_DIED: i32 = 5;
pub const STATUS_MESSAGE_HOST_VANQUISHED: i32 = 7;
pub const STATUS_MESSAGE_BLOOD_FINGER_VANQUISHED: i32 = 8;
pub const STATUS_MESSAGE_DUTY_FULL_FILLED: i32 = 9;
pub const STATUS_MESSAGE_LOST_GRACE_DISCOVERED: i32 = 11;
pub const STATUS_MESSAGE_COMMENCE: i32 = 13;
pub const STATUS_MESSAGE_VICTORY: i32 = 14;
pub const STATUS_MESSAGE_STALEMATE: i32 = 15;
pub const STATUS_MESSAGE_DEFEAT: i32 = 16;
pub const STATUS_MESSAGE_MAP_FOUND: i32 = 17;
pub const STATUS_MESSAGE_GREAT_RUNE_RESTORED: i32 = 21;
pub const STATUS_MESSAGE_GOD_SLAIN: i32 = 22;
pub const STATUS_MESSAGE_DUELIST_VANQUISHED: i32 = 23;
pub const STATUS_MESSAGE_RECUSANT_VANQUISHED: i32 = 24;
pub const STATUS_MESSAGE_INVADER_VANQUISHED: i32 = 25;
pub const STATUS_MESSAGE_FURLED_FINGER_RANK_ADVANCED: i32 = 30;
pub const STATUS_MESSAGE_FURLED_FINGER_RANK_ADVANCED2: i32 = 31;
pub const STATUS_MESSAGE_DUELIST_RANK_ADVANCED: i32 = 32;
pub const STATUS_MESSAGE_DUELIST_RANK_ADVANCED2: i32 = 33;
pub const STATUS_MESSAGE_BLOODY_FINGER_RANK_ADVANCED: i32 = 34;
pub const STATUS_MESSAGE_BLOODY_FINGER_RANK_ADVANCED2: i32 = 35;
pub const STATUS_MESSAGE_RECUSANT_RANK_ADVANCED: i32 = 36;
pub const STATUS_MESSAGE_RECUSANT_RANK_ADVANCED2: i32 = 37;
pub const STATUS_MESSAGE_HUNTER_RANK_ADVANCED: i32 = 38;
pub const STATUS_MESSAGE_HUNTER_RANK_ADVANCED2: i32 = 39;
pub const STATUS_MESSAGE_HEART_STOLEN: i32 = 40;
pub const STATUS_MESSAGE_MENU_TEXT: i32 = 41;

/// Native menu input flag table length used by `CSMenuManImp` callers.
pub const CS_MENU_INPUT_FLAG_COUNT: usize = 0x47;

/// Native indexed menu-manager state-word count accepted by the game setter.
pub const CS_MENU_MAN_INDEXED_STATE_WORD_COUNT: usize = 0x15f;

/// Offset in `CSMenuManImp` of the first dword the native indexed-state
/// setter writes.
pub const INDEXED_STATE_WORD_FIRST_OFFSET: usize = 0xdc;

/// Offset in `CSMenuManImp` of the last dword the native indexed-state setter
/// writes.
pub const INDEXED_STATE_WORD_LAST_OFFSET: usize = 0x654;

/// Number of dwords from the first to the last indexed-state offset,
/// inclusive.
pub const INDEXED_STATE_WORD_COUNT: usize = (INDEXED_STATE_WORD_LAST_OFFSET
    - INDEXED_STATE_WORD_FIRST_OFFSET) / 4 + 1;

/// Offset of the dword the native indexed-state setter writes for `index`,
/// or `None` for an index it rejects.
pub open spec fn indexed_state_word_offset_of(index: int) -> Option<int> {
    if 0 <= index < INDEXED_STATE_WORD_COUNT {
        Some(INDEXED_STATE_WORD_FIRST_OFFSET + 4 * index)
    } else {
        None
    }
}

/// Offset of the dword the native indexed-state setter writes for `index`:
/// consecutive dwords from [`INDEXED_STATE_WORD_FIRST_OFFSET`], `None` from
/// [`INDEXED_STATE_WORD_COUNT`] on.
pub fn indexed_state_word_offset(index: usize) -> (r: Option<usize>)
    ensures
        r matches Some(offset) ==> indexed_state_word_offset_of(index as int) == Some(offset as int),
        r is None <==> indexed_state_word_offset_of(index as int) is None,
{
    if index < INDEXED_STATE_WORD_COUNT {
        Some(INDEXED_STATE_WORD_FIRST_OFFSET + index * 4)
    } else {
        None
    }
}

/// The indexed state table: the setter accepts exactly the indices below
/// [`CS_MENU_MAN_INDEXED_STATE_WORD_COUNT`], maps them to distinct, strictly
/// increasing, dword-spaced offsets, starts at the first offset and ends on
/// the last one.
pub proof fn lemma_indexed_state_table(i: int, j: int)
    ensures
        INDEXED_STATE_WORD_COUNT == CS_MENU_MAN_INDEXED_STATE_WORD_COUNT,
        indexed_state_word_offset_of(i) is Some <==> 0 <= i < CS_MENU_MAN_INDEXED_STATE_WORD_COUNT,
        indexed_state_word_offset_of(0) == Some(INDEXED_STATE_WORD_FIRST_OFFSET as int),
        indexed_state_word_offset_of(CS_MENU_MAN_INDEXED_STATE_WORD_COUNT - 1) == Some(
            INDEXED_STATE_WORD_LAST_OFFSET as int,
        ),
        0 <= i < j < CS_MENU_MAN_INDEXED_STATE_WORD_COUNT ==> indexed_state_word_offset_of(
            i,
        )->0 + 4 <= indexed_state_word_offset_of(j)->0,
        indexed_state_word_offset_of(i) matches Some(o) ==> INDEXED_STATE_WORD_FIRST_OFFSET <= o
            <= INDEXED_STATE_WORD_LAST_OFFSET && (o - INDEXED_STATE_WORD_FIRST_OFFSET) % 4 == 0,
{
}

/// Native `DLReferenceCountObject` header used when only base ref-counted
/// ownership is known.
///
/// Source of layout: ref-counted menu/job structs in this crate share vtable +
/// reference-count header layout, and Ghidra decompilation of `CSMenuManImp::Unref`
/// calls `DLUT::DLReferenceCountObject::~DLReferenceCountObject` on these slots.
pub struct DLReferenceCountObjectHeader {
    pub vftable: usize,
    pub reference_count: u32,
    pub _pad_00c: u32,
}

pub type ReferenceCountedObjectSlot = Option<NativePtr<DLReferenceCountObjectHeader>>;

/// Native `CS::NullPlayerMenuCtrl` inline fallback controller.
///
/// Source of name: RTTI. The `CSMenuManImp` constructor writes this vtable at
/// `CSMenuManImp+0x6a8`, clears the native state word at `+0x8`, and uses the
/// fixed-vector helper on the aligned block at `+0x10` with its count at `+0x58`.
pub struct NullPlayerMenuCtrl {
    pub vftable: usize,
    pub state: u16,
    /// Reference-counted fallback object released by `CSMenuManImp::Unref`.
    pub fallback_reference: ReferenceCountedObjectSlot,
}

/// Native `CS::PlayerStatusCalculator` owned by [`CSMenuManImp`].
///
/// Source of layout: Ghidra structures `CS::PlayerStatusCalculator` and
/// `CS::PlayerStatusCalculatorData`; the menu-manager constructor allocates
/// this object from `GLOBAL_MenuHeapAllocator`, and `CSMenuManImp::Unref` calls
/// its vtable destructor before deallocating it.
pub struct PlayerStatusCalculator {
    pub vftable: usize,
    pub data: PlayerStatusCalculatorData,
    pub _pad_0f4: [u8; 0x4],
}

pub struct PlayerStatusCalculatorData {
    pub current_hp: i32,
    pub current_max_hp: i32,
    pub current_fp: i32,
    pub current_max_fp: i32,
    pub current_max_stamina: i32,
    /// Stored as the bit pattern of a native `f32`.
    pub equipment_weight: u32,
    /// Stored as the bit pattern of a native `f32`.
    pub max_equip_load: u32,
    pub weight_type: i32,
    /// Native float stored between weight type and all-item weight change rate.
    /// Stored as the bit pattern of a native `f32`.
    pub equipment_load_ratio: u32,
    /// Stored as the bit pattern of a native `f32`.
    pub all_item_weight_change_rate: u32,
    pub toughness_damage_cut_rate: i32,
    pub item_drop_rate: i32,
    pub effective_vigor: u32,
    pub effective_mind: u32,
    pub effective_endurance: u32,
    pub effective_vitality: u32,
    pub effective_strength: u32,
    pub effective_dexterity: u32,
    pub effective_intelligence: u32,
    pub effective_faith: u32,
    pub effective_arcane: u32,
    pub attack: PlayerStatusCalculatorAttack,
    pub defense: PlayerStatusDefense,
    pub damage_negation: PlayerStatusCalculatorDamageNegation,
    pub total_resistance: StatusEffectFloats,
    pub resistance: StatusEffectFloats,
    pub magic_slots_count: u32,
    pub rune_count: i32,
}

pub struct PlayerStatusCalculatorAttack {
    pub left_armament_primary: u32,
    pub left_armament_secondary: u32,
    pub left_armament_tertiary: u32,
    pub right_armament_primary: u32,
    pub right_armament_secondary: u32,
    pub right_armament_tertiary: u32,
}

pub struct PlayerStatusDefense {
    pub physical: u32,
    pub strike: u32,
    pub slash: u32,
    pub pierce: u32,
    pub magic: u32,
    pub fire: u32,
    pub lightning: u32,
    pub holy: u32,
}

pub struct PlayerStatusCalculatorDamageNegation {
    /// Stored as the bit pattern of a native `f32`.
    pub physical: u32,
    /// Stored as the bit pattern of a native `f32`.
    pub slash: u32,
    /// Stored as the bit pattern of a native `f32`.
    pub strike: u32,
    /// Stored as the bit pattern of a native `f32`.
    pub pierce: u32,
    /// Stored as the bit pattern of a native `f32`.
    pub magic: u32,
    /// Stored as the bit pattern of a native `f32`.
    pub fire: u32,
    /// Stored as the bit pattern of a native `f32`.
    pub lightning: u32,
    /// Stored as the bit pattern of a native `f32`.
    pub holy: u32,
}

pub struct StatusEffectFloats {
    /// Stored as the bit pattern of a native `f32`.
    pub poison: u32,
    /// Stored as the bit pattern of a native `f32`.
    pub disease: u32,
    /// Stored as the bit pattern of a native `f32`.
    pub blood: u32,
    /// Stored as the bit pattern of a native `f32`.
    pub curse: u32,
    /// Stored as the bit pattern of a native `f32`.
    pub freeze: u32,
    /// Stored as the bit pattern of a native `f32`.
    pub sleep: u32,
    /// Stored as the bit pattern of a native `f32`.
    pub madness: u32,
}

/// Native 16-byte menu-manager stream state at `CSMenuManImp+0xe0`.
///
/// Native save/load helpers transfer this block as one 16-byte payload while
/// other methods inspect individual words and flags inside it.
pub struct CSMenuManStreamStateE0 {
    /// Leading bytes transferred with the stream-state payload; no narrower static meaning yet.
    pub state_prefix_00: [u8; 0x4],
    /// Saved game-data version compared against native `GameData::GetGameDataVersion`.
    pub game_data_version: u32,
    /// Native flag at `+0x8` used to decide whether the state word should refresh.
    pub refresh_requested_flag: u8,
    /// Tail bytes transferred with the stream-state payload; no narrower static meaning yet.
    pub state_tail_09: [u8; 0x7],
}

impl CSMenuManStreamStateE0 {
    /// Native flag at `+0x8` used to decide whether the state word should refresh.
    pub fn refresh_requested(&self) -> (r: bool)
        ensures
            r == (self.refresh_requested_flag != 0),
    {
        self.refresh_requested_flag != 0
    }
}


/// Native menu-manager four-byte lookup vector at `CSMenuManImp+0xf8`.
///
/// Native code indexes from the vector `first` qword at `+0x100` and computes
/// the active element count from `last - first` at `+0x108 - +0x100`.
pub type CSMenuManDwordLookupVectorF8 = Vec<u32>;

/// The derived `Debug` prints the tuple form; [`Self::debug_text`] gives the
/// bitfield rendering, the raw word followed by every named bit.
#[derive(Clone, Copy, Debug, PartialEq, Eq, Hash, Structural)]
pub struct CSMenuShownMenuFlags(pub u32);

impl CSMenuShownMenuFlags {
    /// Input-derived visibility bit from native input id `0x1d`.
    pub fn input_1d(&self) -> (r: bool)
        ensures
            r == bit_u32(self.0, 0),
    {
        (self.0 >> 0u32) & 1u32 == 1u32
    }

    /// Input id `0x2c`, or the forced menu state at `CSMenuManImp+0x130`.
    pub fn input_2c_or_forced(&self) -> (r: bool)
        ensures
            r == bit_u32(self.0, 1),
    {
        (self.0 >> 1u32) & 1u32 == 1u32
    }

    /// Active menu state in either `CSMenuManImp+0x104` or `+0x340`, and also
    /// forced by the popup-top-menu fallback path.
    pub fn player_menu_state_active(&self) -> (r: bool)
        ensures
            r == bit_u32(self.0, 2),
    {
        (self.0 >> 2u32) & 1u32 == 1u32
    }

    /// Input-derived visibility bit from native input id `0x2e`.
    pub fn input_2e(&self) -> (r: bool)
        ensures
            r == bit_u32(self.0, 3),
    {
        (self.0 >> 3u32) & 1u32 == 1u32
    }

    /// Input-derived visibility bit from native input id `0x1c`.
    pub fn input_1c(&self) -> (r: bool)
        ensures
            r == bit_u32(self.0, 4),
    {
        (self.0 >> 4u32) & 1u32 == 1u32
    }

    /// `CSFeMan` overlay/status bit, the front-end overlay input state.
    pub fn fe_overlay_active(&self) -> (r: bool)
        ensures
            r == bit_u32(self.0, 5),
    {
        (self.0 >> 5u32) & 1u32 == 1u32
    }

    /// Input-derived visibility bit from native input id `0x1f`.
    pub fn input_1f(&self) -> (r: bool)
        ensures
            r == bit_u32(self.0, 6),
    {
        (self.0 >> 6u32) & 1u32 == 1u32
    }

    /// Input-derived visibility bit from native input id `0x24`.
    pub fn input_24(&self) -> (r: bool)
        ensures
            r == bit_u32(self.0, 7),
    {
        (self.0 >> 7u32) & 1u32 == 1u32
    }

    /// Input-derived visibility bit from native input id `0x3d`.
    pub fn input_3d(&self) -> (r: bool)
        ensures
            r == bit_u32(self.0, 8),
    {
        (self.0 >> 8u32) & 1u32 == 1u32
    }

    /// Input-derived visibility bit from native input id `0x26`.
    pub fn input_26(&self) -> (r: bool)
        ensures
            r == bit_u32(self.0, 9),
    {
        (self.0 >> 9u32) & 1u32 == 1u32
    }

    /// Input-derived visibility bit from native input id `0x3c`.
    pub fn input_3c(&self) -> (r: bool)
        ensures
            r == bit_u32(self.0, 10),
    {
        (self.0 >> 10u32) & 1u32 == 1u32
    }

    /// Input-derived visibility bit from native input id `0x3e`.
    pub fn input_3e(&self) -> (r: bool)
        ensures
            r == bit_u32(self.0, 11),
    {
        (self.0 >> 11u32) & 1u32 == 1u32
    }

    /// Input-derived visibility bit from native input id `0x30`.
    pub fn input_30(&self) -> (r: bool)
        ensures
            r == bit_u32(self.0, 12),
    {
        (self.0 >> 12u32) & 1u32 == 1u32
    }

    /// Input-derived visibility bit from native input id `0x21`.
    pub fn input_21(&self) -> (r: bool)
        ensures
            r == bit_u32(self.0, 13),
    {
        (self.0 >> 13u32) & 1u32 == 1u32
    }

    /// Input-derived visibility bit from native input id `0x40`.
    pub fn input_40(&self) -> (r: bool)
        ensures
            r == bit_u32(self.0, 14),
    {
        (self.0 >> 14u32) & 1u32 == 1u32
    }

    /// Input-derived visibility bit from native input id `0x25`.
    pub fn input_25(&self) -> (r: bool)
        ensures
            r == bit_u32(self.0, 15),
    {
        (self.0 >> 15u32) & 1u32 == 1u32
    }

    /// Input-derived visibility bit from native input id `0x32`.
    pub fn input_32(&self) -> (r: bool)
        ensures
            r == bit_u32(self.0, 17),
    {
        (self.0 >> 17u32) & 1u32 == 1u32
    }

    /// Input-derived visibility bit from native input id `0x41`.
    pub fn input_41(&self) -> (r: bool)
        ensures
            r == bit_u32(self.0, 18),
    {
        (self.0 >> 18u32) & 1u32 == 1u32
    }

    /// Input-derived visibility bit from native input id `0x31`, and also forced
    /// by the popup-top-menu fallback path.
    pub fn input_31_or_popup_top_menu(&self) -> (r: bool)
        ensures
            r == bit_u32(self.0, 19),
    {
        (self.0 >> 19u32) & 1u32 == 1u32
    }

    /// `CSMenuManImp::menuBrake` was non-zero during `getShownMenuFlags`.
    pub fn menu_brake_active(&self) -> (r: bool)
        ensures
            r == bit_u32(self.0, 20),
    {
        (self.0 >> 20u32) & 1u32 == 1u32
    }

    /// Named bits 0 onward of the debug rendering, each as `, name: bool`.
    pub open spec fn debug_fields_0(self) -> Seq<char> {
        field_text(", input_1d: "@, bit_u32(self.0, 0)) + field_text(", input_2c_or_forced: "@, bit_u32(self.0, 1)) + field_text(", player_menu_state_active: "@, bit_u32(self.0, 2)) + field_text(", input_2e: "@, bit_u32(self.0, 3)) + field_text(", input_1c: "@, bit_u32(self.0, 4))
    }

    fn append_debug_fields_0(&self, out: &mut String)
        ensures
            final(out)@ == old(out)@ + self.debug_fields_0(),
    {
        let ghost start = out@;
        append_field(out, ", input_1d: ", self.input_1d());
        append_field(out, ", input_2c_or_forced: ", self.input_2c_or_forced());
        append_field(out, ", player_menu_state_active: ", self.player_menu_state_active());
        append_field(out, ", input_2e: ", self.input_2e());
        append_field(out, ", input_1c: ", self.input_1c());
        proof {
            assert(out@ =~= start + self.debug_fields_0());
        }
    }

    /// Named bits 5 onward of the debug rendering, each as `, name: bool`.
    pub open spec fn debug_fields_1(self) -> Seq<char> {
        field_text(", fe_overlay_active: "@, bit_u32(self.0, 5)) + field_text(", input_1f: "@, bit_u32(self.0, 6)) + field_text(", input_24: "@, bit_u32(self.0, 7)) + field_text(", input_3d: "@, bit_u32(self.0, 8)) + field_text(", input_26: "@, bit_u32(self.0, 9))
    }

    fn append_debug_fields_1(&self, out: &mut String)
        ensures
            final(out)@ == old(out)@ + self.debug_fields_1(),
    {
        let ghost start = out@;
        append_field(out, ", fe_overlay_active: ", self.fe_overlay_active());
        append_field(out, ", input_1f: ", self.input_1f());
        append_field(out, ", input_24: ", self.input_24());
        append_field(out, ", input_3d: ", self.input_3d());
        append_field(out, ", input_26: ", self.input_26());
        proof {
            assert(out@ =~= start + self.debug_fields_1());
        }
    }

    /// Named bits 10 onward of the debug rendering, each as `, name: bool`.
    pub open spec fn debug_fields_2(self) -> Seq<char> {
        field_text(", input_3c: "@, bit_u32(self.0, 10)) + field_text(", input_3e: "@, bit_u32(self.0, 11)) + field_text(", input_30: "@, bit_u32(self.0, 12)) + field_text(", input_21: "@, bit_u32(self.0, 13)) + field_text(", input_40: "@, bit_u32(self.0, 14))
    }

    fn append_debug_fields_2(&self, out: &mut String)
        ensures
            final(out)@ == old(out)@ + self.debug_fields_2(),
    {
        let ghost start = out@;
        append_field(out, ", input_3c: ", self.input_3c());
        append_field(out, ", input_3e: ", self.input_3e());
        append_field(out, ", input_30: ", self.input_30());
        append_field(out, ", input_21: ", self.input_21());
        append_field(out, ", input_40: ", self.input_40());
        proof {
            assert(out@ =~= start + self.debug_fields_2());
        }
    }

    /// Named bits 15 onward of the debug rendering, each as `, name: bool`.
    pub open spec fn debug_fields_3(self) -> Seq<char> {
        field_text(", input_25: "@, bit_u32(self.0, 15)) + field_text(", input_32: "@, bit_u32(self.0, 17)) + field_text(", input_41: "@, bit_u32(self.0, 18)) + field_text(", input_31_or_popup_top_menu: "@, bit_u32(self.0, 19)) + field_text(", menu_brake_active: "@, bit_u32(self.0, 20))
    }

    fn append_debug_fields_3(&self, out: &mut String)
        ensures
            final(out)@ == old(out)@ + self.debug_fields_3(),
    {
        let ghost start = out@;
        append_field(out, ", input_25: ", self.input_25());
        append_field(out, ", input_32: ", self.input_32());
        append_field(out, ", input_41: ", self.input_41());
        append_field(out, ", input_31_or_popup_top_menu: ", self.input_31_or_popup_top_menu());
        append_field(out, ", menu_brake_active: ", self.menu_brake_active());
        proof {
            assert(out@ =~= start + self.debug_fields_3());
        }
    }

    /// The word followed by every named bit, as `Name { .0: word, bit: bool, .. }`.
    pub open spec fn debug_text_spec(self) -> Seq<char> {
        "CSMenuShownMenuFlags { .0: "@ + decimal_digits(self.0 as nat) + self.debug_fields_0() + self.debug_fields_1() + self.debug_fields_2() + self.debug_fields_3() + " }"@
    }

    /// The debug rendering: the raw word, then each named bit in declaration
    /// order, as `CSMenuShownMenuFlags { .0: <word>, <bit>: <bool>, .. }`.
    pub fn debug_text(&self) -> (r: String)
        ensures
            r@ == self.debug_text_spec(),
    {
        let mut out = String::new();
        append_literal(&mut out, "CSMenuShownMenuFlags { .0: ");
        append_decimal(&mut out, self.0 as u64);
        self.append_debug_fields_0(&mut out);
        self.append_debug_fields_1(&mut out);
        self.append_debug_fields_2(&mut out);
        self.append_debug_fields_3(&mut out);
        append_literal(&mut out, " }");
        out
    }

    /// In the debug text, each name is followed by the value of its getter:
    /// `, name: ` and then `true` exactly when that name's bit is set.
    pub proof fn lemma_debug_text_shows_bits(self)
        ensures
            shows(self.debug_text_spec(), field_text(", input_1d: "@, bit_u32(self.0, 0))),
            shows(self.debug_text_spec(), field_text(", input_2c_or_forced: "@, bit_u32(self.0, 1))),
            shows(self.debug_text_spec(), field_text(", player_menu_state_active: "@, bit_u32(self.0, 2))),
            shows(self.debug_text_spec(), field_text(", input_2e: "@, bit_u32(self.0, 3))),
            shows(self.debug_text_spec(), field_text(", input_1c: "@, bit_u32(self.0, 4))),
            shows(self.debug_text_spec(), field_text(", fe_overlay_active: "@, bit_u32(self.0, 5))),
            shows(self.debug_text_spec(), field_text(", input_1f: "@, bit_u32(self.0, 6))),
            shows(self.debug_text_spec(), field_text(", input_24: "@, bit_u32(self.0, 7))),
            shows(self.debug_text_spec(), field_text(", input_3d: "@, bit_u32(self.0, 8))),
            shows(self.debug_text_spec(), field_text(", input_26: "@, bit_u32(self.0, 9))),
            shows(self.debug_text_spec(), field_text(", input_3c: "@, bit_u32(self.0, 10))),
            shows(self.debug_text_spec(), field_text(", input_3e: "@, bit_u32(self.0, 11))),
            shows(self.debug_text_spec(), field_text(", input_30: "@, bit_u32(self.0, 12))),
            shows(self.debug_text_spec(), field_text(", input_21: "@, bit_u32(self.0, 13))),
            shows(self.debug_text_spec(), field_text(", input_40: "@, bit_u32(self.0, 14))),
            shows(self.debug_text_spec(), field_text(", input_25: "@, bit_u32(self.0, 15))),
            shows(self.debug_text_spec(), field_text(", input_32: "@, bit_u32(self.0, 17))),
            shows(self.debug_text_spec(), field_text(", input_41: "@, bit_u32(self.0, 18))),
            shows(self.debug_text_spec(), field_text(", input_31_or_popup_top_menu: "@, bit_u32(self.0, 19))),
            shows(self.debug_text_spec(), field_text(", menu_brake_active: "@, bit_u32(self.0, 20))),
    {
        {
            lemma_shows_self(field_text(", input_1d: "@, bit_u32(self.0, 0)));
            lemma_shows_right(field_text(", input_1d: "@, bit_u32(self.0, 0)), field_text(", input_2c_or_forced: "@, bit_u32(self.0, 1)), field_text(", input_1d: "@, bit_u32(self.0, 0)));
            lemma_shows_right(field_text(", input_1d: "@, bit_u32(self.0, 0)) + field_text(", input_2c_or_forced: "@, bit_u32(self.0, 1)), field_text(", player_menu_state_active: "@, bit_u32(self.0, 2)), field_text(", input_1d: "@, bit_u32(self.0, 0)));
            lemma_shows_right(field_text(", input_1d: "@, bit_u32(self.0, 0)) + field_text(", input_2c_or_forced: "@, bit_u32(self.0, 1)) + field_text(", player_menu_state_active: "@, bit_u32(self.0, 2)), field_text(", input_2e: "@, bit_u32(self.0, 3)), field_text(", input_1d: "@, bit_u32(self.0, 0)));
            lemma_shows_right(field_text(", input_1d: "@, bit_u32(self.0, 0)) + field_text(", input_2c_or_forced: "@, bit_u32(self.0, 1)) + field_text(", player_menu_state_active: "@, bit_u32(self.0, 2)) + field_text(", input_2e: "@, bit_u32(self.0, 3)), field_text(", input_1c: "@, bit_u32(self.0, 4)), field_text(", input_1d: "@, bit_u32(self.0, 0)));
            assert(shows(self.debug_fields_0(), field_text(", input_1d: "@, bit_u32(self.0, 0))));
            lemma_shows_left("CSMenuShownMenuFlags { .0: "@ + decimal_digits(self.0 as nat), self.debug_fields_0(), field_text(", input_1d: "@, bit_u32(self.0, 0)));
            lemma_shows_right("CSMenuShownMenuFlags { .0: "@ + decimal_digits(self.0 as nat) + self.debug_fields_0(), self.debug_fields_1(), field_text(", input_1d: "@, bit_u32(self.0, 0)));
            lemma_shows_right("CSMenuShownMenuFlags { .0: "@ + decimal_digits(self.0 as nat) + self.debug_fields_0() + self.debug_fields_1(), self.debug_fields_2(), field_text(", input_1d: "@, bit_u32(self.0, 0)));
            lemma_shows_right("CSMenuShownMenuFlags { .0: "@ + decimal_digits(self.0 as nat) + self.debug_fields_0() + self.debug_fields_1() + self.debug_fields_2(), self.debug_fields_3(), field_text(", input_1d: "@, bit_u32(self.0, 0)));
            lemma_shows_right("CSMenuShownMenuFlags { .0: "@ + decimal_digits(self.0 as nat) + self.debug_fields_0() + self.debug_fields_1() + self.debug_fields_2() + self.debug_fields_3(), " }"@, field_text(", input_1d: "@, bit_u32(self.0, 0)));
        }
        {
            lemma_shows_self(field_text(", input_2c_or_forced: "@, bit_u32(self.0, 1)));
            lemma_shows_left(field_text(", input_1d: "@, bit_u32(self.0, 0)), field_text(", input_2c_or_forced: "@, bit_u32(self.0, 1)), field_text(", input_2c_or_forced: "@, bit_u32(self.0, 1)));
            lemma_shows_right(field_text(", input_1d: "@, bit_u32(self.0, 0)) + field_text(", input_2c_or_forced: "@, bit_u32(self.0, 1)), field_text(", player_menu_state_active: "@, bit_u32(self.0, 2)), field_text(", input_2c_or_forced: "@, bit_u32(self.0, 1)));
            lemma_shows_right(field_text(", input_1d: "@, bit_u32(self.0, 0)) + field_text(", input_2c_or_forced: "@, bit_u32(self.0, 1)) + field_text(", player_menu_state_active: "@, bit_u32(self.0, 2)), field_text(", input_2e: "@, bit_u32(self.0, 3)), field_text(", input_2c_or_forced: "@, bit_u32(self.0, 1)));
            lemma_shows_right(field_text(", input_1d: "@, bit_u32(self.0, 0)) + field_text(", input_2c_or_forced: "@, bit_u32(self.0, 1)) + field_text(", player_menu_state_active: "@, bit_u32(self.0, 2)) + field_text(", input_2e: "@, bit_u32(self.0, 3)), field_text(", input_1c: "@, bit_u32(self.0, 4)), field_text(", input_2c_or_forced: "@, bit_u32(self.0, 1)));
            assert(shows(self.debug_fields_0(), field_text(", input_2c_or_forced: "@, bit_u32(self.0, 1))));
            lemma_shows_left("CSMenuShownMenuFlags { .0: "@ + decimal_digits(self.0 as nat), self.debug_fields_0(), field_text(", input_2c_or_forced: "@, bit_u32(self.0, 1)));
            lemma_shows_right("CSMenuShownMenuFlags { .0: "@ + decimal_digits(self.0 as nat) + self.debug_fields_0(), self.debug_fields_1(), field_text(", input_2c_or_forced: "@, bit_u32(self.0, 1)));
            lemma_shows_right("CSMenuShownMenuFlags { .0: "@ + decimal_digits(self.0 as nat) + self.debug_fields_0() + self.debug_fields_1(), self.debug_fields_2(), field_text(", input_2c_or_forced: "@, bit_u32(self.0, 1)));
            lemma_shows_right("CSMenuShownMenuFlags { .0: "@ + decimal_digits(self.0 as nat) + self.debug_fields_0() + self.debug_fields_1() + self.debug_fields_2(), self.debug_fields_3(), field_text(", input_2c_or_forced: "@, bit_u32(self.0, 1)));
            lemma_shows_right("CSMenuShownMenuFlags { .0: "@ + decimal_digits(self.0 as nat) + self.debug_fields_0() + self.debug_fields_1() + self.debug_fields_2() + self.debug_fields_3(), " }"@, field_text(", input_2c_or_forced: "@, bit_u32(self.0, 1)));
        }
        {
            lemma_shows_self(field_text(", player_menu_state_active: "@, bit_u32(self.0, 2)));
            lemma_shows_left(field_text(", input_1d: "@, bit_u32(self.0, 0)) + field_text(", input_2c_or_forced: "@, bit_u32(self.0, 1)), field_text(", player_menu_state_active: "@, bit_u32(self.0, 2)), field_text(", player_menu_state_active: "@, bit_u32(self.0, 2)));
            lemma_shows_right(field_text(", input_1d: "@, bit_u32(self.0, 0)) + field_text(", input_2c_or_forced: "@, bit_u32(self.0, 1)) + field_text(", player_menu_state_active: "@, bit_u32(self.0, 2)), field_text(", input_2e: "@, bit_u32(self.0, 3)), field_text(", player_menu_state_active: "@, bit_u32(self.0, 2)));
            lemma_shows_right(field_text(", input_1d: "@, bit_u32(self.0, 0)) + field_text(", input_2c_or_forced: "@, bit_u32(self.0, 1)) + field_text(", player_menu_state_active: "@, bit_u32(self.0, 2)) + field_text(", input_2e: "@, bit_u32(self.0, 3)), field_text(", input_1c: "@, bit_u32(self.0, 4)), field_text(", player_menu_state_active: "@, bit_u32(self.0, 2)));
            assert(shows(self.debug_fields_0(), field_text(", player_menu_state_active: "@, bit_u32(self.0, 2))));
            lemma_shows_left("CSMenuShownMenuFlags { .0: "@ + decimal_digits(self.0 as nat), self.debug_fields_0(), field_text(", player_menu_state_active: "@, bit_u32(self.0, 2)));
            lemma_shows_right("CSMenuShownMenuFlags { .0: "@ + decimal_digits(self.0 as nat) + self.debug_fields_0(), self.debug_fields_1(), field_text(", player_menu_state_active: "@, bit_u32(self.0, 2)));
            lemma_shows_right("CSMenuShownMenuFlags { .0: "@ + decimal_digits(self.0 as nat) + self.debug_fields_0() + self.debug_fields_1(), self.debug_fields_2(), field_text(", player_menu_state_active: "@, bit_u32(self.0, 2)));
            lemma_shows_right("CSMenuShownMenuFlags { .0: "@ + decimal_digits(self.0 as nat) + self.debug_fields_0() + self.debug_fields_1() + self.debug_fields_2(), self.debug_fields_3(), field_text(", player_menu_state_active: "@, bit_u32(self.0, 2)));
            lemma_shows_right("CSMenuShownMenuFlags { .0: "@ + decimal_digits(self.0 as nat) + self.debug_fields_0() + self.debug_fields_1() + self.debug_fields_2() + self.debug_fields_3(), " }"@, field_text(", player_menu_state_active: "@, bit_u32(self.0, 2)));
        }
        {
            lemma_shows_self(field_text(", input_2e: "@, bit_u32(self.0, 3)));
            lemma_shows_left(field_text(", input_1d: "@, bit_u32(self.0, 0)) + field_text(", input_2c_or_forced: "@, bit_u32(self.0, 1)) + field_text(", player_menu_state_active: "@, bit_u32(self.0, 2)), field_text(", input_2e: "@, bit_u32(self.0, 3)), field_text(", input_2e: "@, bit_u32(self.0, 3)));
            lemma_shows_right(field_text(", input_1d: "@, bit_u32(self.0, 0)) + field_text(", input_2c_or_forced: "@, bit_u32(self.0, 1)) + field_text(", player_menu_state_active: "@, bit_u32(self.0, 2)) + field_text(", input_2e: "@, bit_u32(self.0, 3)), field_text(", input_1c: "@, bit_u32(self.0, 4)), field_text(", input_2e: "@, bit_u32(self.0, 3)));
            assert(shows(self.debug_fields_0(), field_text(", input_2e: "@, bit_u32(self.0, 3))));
            lemma_shows_left("CSMenuShownMenuFlags { .0: "@ + decimal_digits(self.0 as nat), self.debug_fields_0(), field_text(", input_2e: "@, bit_u32(self.0, 3)));
            lemma_shows_right("CSMenuShownMenuFlags { .0: "@ + decimal_digits(self.0 as nat) + self.debug_fields_0(), self.debug_fields_1(), field_text(", input_2e: "@, bit_u32(self.0, 3)));
            lemma_shows_right("CSMenuShownMenuFlags { .0: "@ + decimal_digits(self.0 as nat) + self.debug_fields_0() + self.debug_fields_1(), self.debug_fields_2(), field_text(", input_2e: "@, bit_u32(self.0, 3)));
            lemma_shows_right("CSMenuShownMenuFlags { .0: "@ + decimal_digits(self.0 as nat) + self.debug_fields_0() + self.debug_fields_1() + self.debug_fields_2(), self.debug_fields_3(), field_text(", input_2e: "@, bit_u32(self.0, 3)));
            lemma_shows_right("CSMenuShownMenuFlags { .0: "@ + decimal_digits(self.0 as nat) + self.debug_fields_0() + self.debug_fields_1() + self.debug_fields_2() + self.debug_fields_3(), " }"@, field_text(", input_2e: "@, bit_u32(self.0, 3)));
        }
        {
            lemma_shows_self(field_text(", input_1c: "@, bit_u32(self.0, 4)));
            lemma_shows_left(field_text(", input_1d: "@, bit_u32(self.0, 0)) + field_text(", input_2c_or_forced: "@, bit_u32(self.0, 1)) + field_text(", player_menu_state_active: "@, bit_u32(self.0, 2)) + field_text(", input_2e: "@, bit_u32(self.0, 3)), field_text(", input_1c: "@, bit_u32(self.0, 4)), field_text(", input_1c: "@, bit_u32(self.0, 4)));
            assert(shows(self.debug_fields_0(), field_text(", input_1c: "@, bit_u32(self.0, 4))));
            lemma_shows_left("CSMenuShownMenuFlags { .0: "@ + decimal_digits(self.0 as nat), self.debug_fields_0(), field_text(", input_1c: "@, bit_u32(self.0, 4)));
            lemma_shows_right("CSMenuShownMenuFlags { .0: "@ + decimal_digits(self.0 as nat) + self.debug_fields_0(), self.debug_fields_1(), field_text(", input_1c: "@, bit_u32(self.0, 4)));
            lemma_shows_right("CSMenuShownMenuFlags { .0: "@ + decimal_digits(self.0 as nat) + self.debug_fields_0() + self.debug_fields_1(), self.debug_fields_2(), field_text(", input_1c: "@, bit_u32(self.0, 4)));
            lemma_shows_right("CSMenuShownMenuFlags { .0: "@ + decimal_digits(self.0 as nat) + self.debug_fields_0() + self.debug_fields_1() + self.debug_fields_2(), self.debug_fields_3(), field_text(", input_1c: "@, bit_u32(self.0, 4)));
            lemma_shows_right("CSMenuShownMenuFlags { .0: "@ + decimal_digits(self.0 as nat) + self.debug_fields_0() + self.debug_fields_1() + self.debug_fields_2() + self.debug_fields_3(), " }"@, field_text(", input_1c: "@, bit_u32(self.0, 4)));
        }
        {
            lemma_shows_self(field_text(", fe_overlay_active: "@, bit_u32(self.0, 5)));
            lemma_shows_right(field_text(", fe_overlay_active: "@, bit_u32(self.0, 5)), field_text(", input_1f: "@, bit_u32(self.0, 6)), field_text(", fe_overlay_active: "@, bit_u32(self.0, 5)));
            lemma_shows_right(field_text(", fe_overlay_active: "@, bit_u32(self.0, 5)) + field_text(", input_1f: "@, bit_u32(self.0, 6)), field_text(", input_24: "@, bit_u32(self.0, 7)), field_text(", fe_overlay_active: "@, bit_u32(self.0, 5)));
            lemma_shows_right(field_text(", fe_overlay_active: "@, bit_u32(self.0, 5)) + field_text(", input_1f: "@, bit_u32(self.0, 6)) + field_text(", input_24: "@, bit_u32(self.0, 7)), field_text(", input_3d: "@, bit_u32(self.0, 8)), field_text(", fe_overlay_active: "@, bit_u32(self.0, 5)));
            lemma_shows_right(field_text(", fe_overlay_active: "@, bit_u32(self.0, 5)) + field_text(", input_1f: "@, bit_u32(self.0, 6)) + field_text(", input_24: "@, bit_u32(self.0, 7)) + field_text(", input_3d: "@, bit_u32(self.0, 8)), field_text(", input_26: "@, bit_u32(self.0, 9)), field_text(", fe_overlay_active: "@, bit_u32(self.0, 5)));
            assert(shows(self.debug_fields_1(), field_text(", fe_overlay_active: "@, bit_u32(self.0, 5))));
            lemma_shows_left("CSMenuShownMenuFlags { .0: "@ + decimal_digits(self.0 as nat) + self.debug_fields_0(), self.debug_fields_1(), field_text(", fe_overlay_active: "@, bit_u32(self.0, 5)));
            lemma_shows_right("CSMenuShownMenuFlags { .0: "@ + decimal_digits(self.0 as nat) + self.debug_fields_0() + self.debug_fields_1(), self.debug_fields_2(), field_text(", fe_overlay_active: "@, bit_u32(self.0, 5)));
            lemma_shows_right("CSMenuShownMenuFlags { .0: "@ + decimal_digits(self.0 as nat) + self.debug_fields_0() + self.debug_fields_1() + self.debug_fields_2(), self.debug_fields_3(), field_text(", fe_overlay_active: "@, bit_u32(self.0, 5)));
            lemma_shows_right("CSMenuShownMenuFlags { .0: "@ + decimal_digits(self.0 as nat) + self.debug_fields_0() + self.debug_fields_1() + self.debug_fields_2() + self.debug_fields_3(), " }"@, field_text(", fe_overlay_active: "@, bit_u32(self.0, 5)));
        }
        {
            lemma_shows_self(field_text(", input_1f: "@, bit_u32(self.0, 6)));
            lemma_shows_left(field_text(", fe_overlay_active: "@, bit_u32(self.0, 5)), field_text(", input_1f: "@, bit_u32(self.0, 6)), field_text(", input_1f: "@, bit_u32(self.0, 6)));
            lemma_shows_right(field_text(", fe_overlay_active: "@, bit_u32(self.0, 5)) + field_text(", input_1f: "@, bit_u32(self.0, 6)), field_text(", input_24: "@, bit_u32(self.0, 7)), field_text(", input_1f: "@, bit_u32(self.0, 6)));
            lemma_shows_right(field_text(", fe_overlay_active: "@, bit_u32(self.0, 5)) + field_text(", input_1f: "@, bit_u32(self.0, 6)) + field_text(", input_24: "@, bit_u32(self.0, 7)), field_text(", input_3d: "@, bit_u32(self.0, 8)), field_text(", input_1f: "@, bit_u32(self.0, 6)));
            lemma_shows_right(field_text(", fe_overlay_active: "@, bit_u32(self.0, 5)) + field_text(", input_1f: "@, bit_u32(self.0, 6)) + field_text(", input_24: "@, bit_u32(self.0, 7)) + field_text(", input_3d: "@, bit_u32(self.0, 8)), field_text(", input_26: "@, bit_u32(self.0, 9)), field_text(", input_1f: "@, bit_u32(self.0, 6)));
            assert(shows(self.debug_fields_1(), field_text(", input_1f: "@, bit_u32(self.0, 6))));
            lemma_shows_left("CSMenuShownMenuFlags { .0: "@ + decimal_digits(self.0 as nat) + self.debug_fields_0(), self.debug_fields_1(), field_text(", input_1f: "@, bit_u32(self.0, 6)));
            lemma_shows_right("CSMenuShownMenuFlags { .0: "@ + decimal_digits(self.0 as nat) + self.debug_fields_0() + self.debug_fields_1(), self.debug_fields_2(), field_text(", input_1f: "@, bit_u32(self.0, 6)));
            lemma_shows_right("CSMenuShownMenuFlags { .0: "@ + decimal_digits(self.0 as nat) + self.debug_fields_0() + self.debug_fields_1() + self.debug_fields_2(), self.debug_fields_3(), field_text(", input_1f: "@, bit_u32(self.0, 6)));
            lemma_shows_right("CSMenuShownMenuFlags { .0: "@ + decimal_digits(self.0 as nat) + self.debug_fields_0() + self.debug_fields_1() + self.debug_fields_2() + self.debug_fields_3(), " }"@, field_text(", input_1f: "@, bit_u32(self.0, 6)));
        }
        {
            lemma_shows_self(field_text(", input_24: "@, bit_u32(self.0, 7)));
            lemma_shows_left(field_text(", fe_overlay_active: "@, bit_u32(self.0, 5)) + field_text(", input_1f: "@, bit_u32(self.0, 6)), field_text(", input_24: "@, bit_u32(self.0, 7)), field_text(", input_24: "@, bit_u32(self.0, 7)));
            lemma_shows_right(field_text(", fe_overlay_active: "@, bit_u32(self.0, 5)) + field_text(", input_1f: "@, bit_u32(self.0, 6)) + field_text(", input_24: "@, bit_u32(self.0, 7)), field_text(", input_3d: "@, bit_u32(self.0, 8)), field_text(", input_24: "@, bit_u32(self.0, 7)));
            lemma_shows_right(field_text(", fe_overlay_active: "@, bit_u32(self.0, 5)) + field_text(", input_1f: "@, bit_u32(self.0, 6)) + field_text(", input_24: "@, bit_u32(self.0, 7)) + field_text(", input_3d: "@, bit_u32(self.0, 8)), field_text(", input_26: "@, bit_u32(self.0, 9)), field_text(", input_24: "@, bit_u32(self.0, 7)));
            assert(shows(self.debug_fields_1(), field_text(", input_24: "@, bit_u32(self.0, 7))));
            lemma_shows_left("CSMenuShownMenuFlags { .0: "@ + decimal_digits(self.0 as nat) + self.debug_fields_0(), self.debug_fields_1(), field_text(", input_24: "@, bit_u32(self.0, 7)));
            lemma_shows_right("CSMenuShownMenuFlags { .0: "@ + decimal_digits(self.0 as nat) + self.debug_fields_0() + self.debug_fields_1(), self.debug_fields_2(), field_text(", input_24: "@, bit_u32(self.0, 7)));
            lemma_shows_right("CSMenuShownMenuFlags { .0: "@ + decimal_digits(self.0 as nat) + self.debug_fields_0() + self.debug_fields_1() + self.debug_fields_2(), self.debug_fields_3(), field_text(", input_24: "@, bit_u32(self.0, 7)));
            lemma_shows_right("CSMenuShownMenuFlags { .0: "@ + decimal_digits(self.0 as nat) + self.debug_fields_0() + self.debug_fields_1() + self.debug_fields_2() + self.debug_fields_3(), " }"@, field_text(", input_24: "@, bit_u32(self.0, 7)));
        }
        {
            lemma_shows_self(field_text(", input_3d: "@, bit_u32(self.0, 8)));
            lemma_shows_left(field_text(", fe_overlay_active: "@, bit_u32(self.0, 5)) + field_text(", input_1f: "@, bit_u32(self.0, 6)) + field_text(", input_24: "@, bit_u32(self.0, 7)), field_text(", input_3d: "@, bit_u32(self.0, 8)), field_text(", input_3d: "@, bit_u32(self.0, 8)));
            lemma_shows_right(field_text(", fe_overlay_active: "@, bit_u32(self.0, 5)) + field_text(", input_1f: "@, bit_u32(self.0, 6)) + field_text(", input_24: "@, bit_u32(self.0, 7)) + field_text(", input_3d: "@, bit_u32(self.0, 8)), field_text(", input_26: "@, bit_u32(self.0, 9)), field_text(", input_3d: "@, bit_u32(self.0, 8)));
            assert(shows(self.debug_fields_1(), field_text(", input_3d: "@, bit_u32(self.0, 8))));
            lemma_shows_left("CSMenuShownMenuFlags { .0: "@ + decimal_digits(self.0 as nat) + self.debug_fields_0(), self.debug_fields_1(), field_text(", input_3d: "@, bit_u32(self.0, 8)));
            lemma_shows_right("CSMenuShownMenuFlags { .0: "@ + decimal_digits(self.0 as nat) + self.debug_fields_0() + self.debug_fields_1(), self.debug_fields_2(), field_text(", input_3d: "@, bit_u32(self.0, 8)));
            lemma_shows_right("CSMenuShownMenuFlags { .0: "@ + decimal_digits(self.0 as nat) + self.debug_fields_0() + self.debug_fields_1() + self.debug_fields_2(), self.debug_fields_3(), field_text(", input_3d: "@, bit_u32(self.0, 8)));
            lemma_shows_right("CSMenuShownMenuFlags { .0: "@ + decimal_digits(self.0 as nat) + self.debug_fields_0() + self.debug_fields_1() + self.debug_fields_2() + self.debug_fields_3(), " }"@, field_text(", input_3d: "@, bit_u32(self.0, 8)));
        }
        {
            lemma_shows_self(field_text(", input_26: "@, bit_u32(self.0, 9)));
            lemma_shows_left(field_text(", fe_overlay_active: "@, bit_u32(self.0, 5)) + field_text(", input_1f: "@, bit_u32(self.0, 6)) + field_text(", input_24: "@, bit_u32(self.0, 7)) + field_text(", input_3d: "@, bit_u32(self.0, 8)), field_text(", input_26: "@, bit_u32(self.0, 9)), field_text(", input_26: "@, bit_u32(self.0, 9)));
            assert(shows(self.debug_fields_1(), field_text(", input_26: "@, bit_u32(self.0, 9))));
            lemma_shows_left("CSMenuShownMenuFlags { .0: "@ + decimal_digits(self.0 as nat) + self.debug_fields_0(), self.debug_fields_1(), field_text(", input_26: "@, bit_u32(self.0, 9)));
            lemma_shows_right("CSMenuShownMenuFlags { .0: "@ + decimal_digits(self.0 as nat) + self.debug_fields_0() + self.debug_fields_1(), self.debug_fields_2(), field_text(", input_26: "@, bit_u32(self.0, 9)));
            lemma_shows_right("CSMenuShownMenuFlags { .0: "@ + decimal_digits(self.0 as nat) + self.debug_fields_0() + self.debug_fields_1() + self.debug_fields_2(), self.debug_fields_3(), field_text(", input_26: "@, bit_u32(self.0, 9)));
            lemma_shows_right("CSMenuShownMenuFlags { .0: "@ + decimal_digits(self.0 as nat) + self.debug_fields_0() + self.debug_fields_1() + self.debug_fields_2() + self.debug_fields_3(), " }"@, field_text(", input_26: "@, bit_u32(self.0, 9)));
        }
        {
            lemma_shows_self(field_text(", input_3c: "@, bit_u32(self.0, 10)));
            lemma_shows_right(field_text(", input_3c: "@, bit_u32(self.0, 10)), field_text(", input_3e: "@, bit_u32(self.0, 11)), field_text(", input_3c: "@, bit_u32(self.0, 10)));
            lemma_shows_right(field_text(", input_3c: "@, bit_u32(self.0, 10)) + field_text(", input_3e: "@, bit_u32(self.0, 11)), field_text(", input_30: "@, bit_u32(self.0, 12)), field_text(", input_3c: "@, bit_u32(self.0, 10)));
            lemma_shows_right(field_text(", input_3c: "@, bit_u32(self.0, 10)) + field_text(", input_3e: "@, bit_u32(self.0, 11)) + field_text(", input_30: "@, bit_u32(self.0, 12)), field_text(", input_21: "@, bit_u32(self.0, 13)), field_text(", input_3c: "@, bit_u32(self.0, 10)));
            lemma_shows_right(field_text(", input_3c: "@, bit_u32(self.0, 10)) + field_text(", input_3e: "@, bit_u32(self.0, 11)) + field_text(", input_30: "@, bit_u32(self.0, 12)) + field_text(", input_21: "@, bit_u32(self.0, 13)), field_text(", input_40: "@, bit_u32(self.0, 14)), field_text(", input_3c: "@, bit_u32(self.0, 10)));
            assert(shows(self.debug_fields_2(), field_text(", input_3c: "@, bit_u32(self.0, 10))));
            lemma_shows_left("CSMenuShownMenuFlags { .0: "@ + decimal_digits(self.0 as nat) + self.debug_fields_0() + self.debug_fields_1(), self.debug_fields_2(), field_text(", input_3c: "@, bit_u32(self.0, 10)));
            lemma_shows_right("CSMenuShownMenuFlags { .0: "@ + decimal_digits(self.0 as nat) + self.debug_fields_0() + self.debug_fields_1() + self.debug_fields_2(), self.debug_fields_3(), field_text(", input_3c: "@, bit_u32(self.0, 10)));
            lemma_shows_right("CSMenuShownMenuFlags { .0: "@ + decimal_digits(self.0 as nat) + self.debug_fields_0() + self.debug_fields_1() + self.debug_fields_2() + self.debug_fields_3(), " }"@, field_text(", input_3c: "@, bit_u32(self.0, 10)));
        }
        {
            lemma_shows_self(field_text(", input_3e: "@, bit_u32(self.0, 11)));
            lemma_shows_left(field_text(", input_3c: "@, bit_u32(self.0, 10)), field_text(", input_3e: "@, bit_u32(self.0, 11)), field_text(", input_3e: "@, bit_u32(self.0, 11)));
            lemma_shows_right(field_text(", input_3c: "@, bit_u32(self.0, 10)) + field_text(", input_3e: "@, bit_u32(self.0, 11)), field_text(", input_30: "@, bit_u32(self.0, 12)), field_text(", input_3e: "@, bit_u32(self.0, 11)));
            lemma_shows_right(field_text(", input_3c: "@, bit_u32(self.0, 10)) + field_text(", input_3e: "@, bit_u32(self.0, 11)) + field_text(", input_30: "@, bit_u32(self.0, 12)), field_text(", input_21: "@, bit_u32(self.0, 13)), field_text(", input_3e: "@, bit_u32(self.0, 11)));
            lemma_shows_right(field_text(", input_3c: "@, bit_u32(self.0, 10)) + field_text(", input_3e: "@, bit_u32(self.0, 11)) + field_text(", input_30: "@, bit_u32(self.0, 12)) + field_text(", input_21: "@, bit_u32(self.0, 13)), field_text(", input_40: "@, bit_u32(self.0, 14)), field_text(", input_3e: "@, bit_u32(self.0, 11)));
            assert(shows(self.debug_fields_2(), field_text(", input_3e: "@, bit_u32(self.0, 11))));
            lemma_shows_left("CSMenuShownMenuFlags { .0: "@ + decimal_digits(self.0 as nat) + self.debug_fields_0() + self.debug_fields_1(), self.debug_fields_2(), field_text(", input_3e: "@, bit_u32(self.0, 11)));
            lemma_shows_right("CSMenuShownMenuFlags { .0: "@ + decimal_digits(self.0 as nat) + self.debug_fields_0() + self.debug_fields_1() + self.debug_fields_2(), self.debug_fields_3(), field_text(", input_3e: "@, bit_u32(self.0, 11)));
            lemma_shows_right("CSMenuShownMenuFlags { .0: "@ + decimal_digits(self.0 as nat) + self.debug_fields_0() + self.debug_fields_1() + self.debug_fields_2() + self.debug_fields_3(), " }"@, field_text(", input_3e: "@, bit_u32(self.0, 11)));
        }
        {
            lemma_shows_self(field_text(", input_30: "@, bit_u32(self.0, 12)));
            lemma_shows_left(field_text(", input_3c: "@, bit_u32(self.0, 10)) + field_text(", input_3e: "@, bit_u32(self.0, 11)), field_text(", input_30: "@, bit_u32(self.0, 12)), field_text(", input_30: "@, bit_u32(self.0, 12)));
            lemma_shows_right(field_text(", input_3c: "@, bit_u32(self.0, 10)) + field_text(", input_3e: "@, bit_u32(self.0, 11)) + field_text(", input_30: "@, bit_u32(self.0, 12)), field_text(", input_21: "@, bit_u32(self.0, 13)), field_text(", input_30: "@, bit_u32(self.0, 12)));
            lemma_shows_right(field_text(", input_3c: "@, bit_u32(self.0, 10)) + field_text(", input_3e: "@, bit_u32(self.0, 11)) + field_text(", input_30: "@, bit_u32(self.0, 12)) + field_text(", input_21: "@, bit_u32(self.0, 13)), field_text(", input_40: "@, bit_u32(self.0, 14)), field_text(", input_30: "@, bit_u32(self.0, 12)));
            assert(shows(self.debug_fields_2(), field_text(", input_30: "@, bit_u32(self.0, 12))));
            lemma_shows_left("CSMenuShownMenuFlags { .0: "@ + decimal_digits(self.0 as nat) + self.debug_fields_0() + self.debug_fields_1(), self.debug_fields_2(), field_text(", input_30: "@, bit_u32(self.0, 12)));
            lemma_shows_right("CSMenuShownMenuFlags { .0: "@ + decimal_digits(self.0 as nat) + self.debug_fields_0() + self.debug_fields_1() + self.debug_fields_2(), self.debug_fields_3(), field_text(", input_30: "@, bit_u32(self.0, 12)));
            lemma_shows_right("CSMenuShownMenuFlags { .0: "@ + decimal_digits(self.0 as nat) + self.debug_fields_0() + self.debug_fields_1() + self.debug_fields_2() + self.debug_fields_3(), " }"@, field_text(", input_30: "@, bit_u32(self.0, 12)));
        }
        {
            lemma_shows_self(field_text(", input_21: "@, bit_u32(self.0, 13)));
            lemma_shows_left(field_text(", input_3c: "@, bit_u32(self.0, 10)) + field_text(", input_3e: "@, bit_u32(self.0, 11)) + field_text(", input_30: "@, bit_u32(self.0, 12)), field_text(", input_21: "@, bit_u32(self.0, 13)), field_text(", input_21: "@, bit_u32(self.0, 13)));
            lemma_shows_right(field_text(", input_3c: "@, bit_u32(self.0, 10)) + field_text(", input_3e: "@, bit_u32(self.0, 11)) + field_text(", input_30: "@, bit_u32(self.0, 12)) + field_text(", input_21: "@, bit_u32(self.0, 13)), field_text(", input_40: "@, bit_u32(self.0, 14)), field_text(", input_21: "@, bit_u32(self.0, 13)));
            assert(shows(self.debug_fields_2(), field_text(", input_21: "@, bit_u32(self.0, 13))));
            lemma_shows_left("CSMenuShownMenuFlags { .0: "@ + decimal_digits(self.0 as nat) + self.debug_fields_0() + self.debug_fields_1(), self.debug_fields_2(), field_text(", input_21: "@, bit_u32(self.0, 13)));
            lemma_shows_right("CSMenuShownMenuFlags { .0: "@ + decimal_digits(self.0 as nat) + self.debug_fields_0() + self.debug_fields_1() + self.debug_fields_2(), self.debug_fields_3(), field_text(", input_21: "@, bit_u32(self.0, 13)));
            lemma_shows_right("CSMenuShownMenuFlags { .0: "@ + decimal_digits(self.0 as nat) + self.debug_fields_0() + self.debug_fields_1() + self.debug_fields_2() + self.debug_fields_3(), " }"@, field_text(", input_21: "@, bit_u32(self.0, 13)));
        }
        {
            lemma_shows_self(field_text(", input_40: "@, bit_u32(self.0, 14)));
            lemma_shows_left(field_text(", input_3c: "@, bit_u32(self.0, 10)) + field_text(", input_3e: "@, bit_u32(self.0, 11)) + field_text(", input_30: "@, bit_u32(self.0, 12)) + field_text(", input_21: "@, bit_u32(self.0, 13)), field_text(", input_40: "@, bit_u32(self.0, 14)), field_text(", input_40: "@, bit_u32(self.0, 14)));
            assert(shows(self.debug_fields_2(), field_text(", input_40: "@, bit_u32(self.0, 14))));
            lemma_shows_left("CSMenuShownMenuFlags { .0: "@ + decimal_digits(self.0 as nat) + self.debug_fields_0() + self.debug_fields_1(), self.debug_fields_2(), field_text(", input_40: "@, bit_u32(self.0, 14)));
            lemma_shows_right("CSMenuShownMenuFlags { .0: "@ + decimal_digits(self.0 as nat) + self.debug_fields_0() + self.debug_fields_1() + self.debug_fields_2(), self.debug_fields_3(), field_text(", input_40: "@, bit_u32(self.0, 14)));
            lemma_shows_right("CSMenuShownMenuFlags { .0: "@ + decimal_digits(self.0 as nat) + self.debug_fields_0() + self.debug_fields_1() + self.debug_fields_2() + self.debug_fields_3(), " }"@, field_text(", input_40: "@, bit_u32(self.0, 14)));
        }
        {
            lemma_shows_self(field_text(", input_25: "@, bit_u32(self.0, 15)));
            lemma_shows_right(field_text(", input_25: "@, bit_u32(self.0, 15)), field_text(", input_32: "@, bit_u32(self.0, 17)), field_text(", input_25: "@, bit_u32(self.0, 15)));
            lemma_shows_right(field_text(", input_25: "@, bit_u32(self.0, 15)) + field_text(", input_32: "@, bit_u32(self.0, 17)), field_text(", input_41: "@, bit_u32(self.0, 18)), field_text(", input_25: "@, bit_u32(self.0, 15)));
            lemma_shows_right(field_text(", input_25: "@, bit_u32(self.0, 15)) + field_text(", input_32: "@, bit_u32(self.0, 17)) + field_text(", input_41: "@, bit_u32(self.0, 18)), field_text(", input_31_or_popup_top_menu: "@, bit_u32(self.0, 19)), field_text(", input_25: "@, bit_u32(self.0, 15)));
            lemma_shows_right(field_text(", input_25: "@, bit_u32(self.0, 15)) + field_text(", input_32: "@, bit_u32(self.0, 17)) + field_text(", input_41: "@, bit_u32(self.0, 18)) + field_text(", input_31_or_popup_top_menu: "@, bit_u32(self.0, 19)), field_text(", menu_brake_active: "@, bit_u32(self.0, 20)), field_text(", input_25: "@, bit_u32(self.0, 15)));
            assert(shows(self.debug_fields_3(), field_text(", input_25: "@, bit_u32(self.0, 15))));
            lemma_shows_left("CSMenuShownMenuFlags { .0: "@ + decimal_digits(self.0 as nat) + self.debug_fields_0() + self.debug_fields_1() + self.debug_fields_2(), self.debug_fields_3(), field_text(", input_25: "@, bit_u32(self.0, 15)));
            lemma_shows_right("CSMenuShownMenuFlags { .0: "@ + decimal_digits(self.0 as nat) + self.debug_fields_0() + self.debug_fields_1() + self.debug_fields_2() + self.debug_fields_3(), " }"@, field_text(", input_25: "@, bit_u32(self.0, 15)));
        }
        {
            lemma_shows_self(field_text(", input_32: "@, bit_u32(self.0, 17)));
            lemma_shows_left(field_text(", input_25: "@, bit_u32(self.0, 15)), field_text(", input_32: "@, bit_u32(self.0, 17)), field_text(", input_32: "@, bit_u32(self.0, 17)));
            lemma_shows_right(field_text(", input_25: "@, bit_u32(self.0, 15)) + field_text(", input_32: "@, bit_u32(self.0, 17)), field_text(", input_41: "@, bit_u32(self.0, 18)), field_text(", input_32: "@, bit_u32(self.0, 17)));
            lemma_shows_right(field_text(", input_25: "@, bit_u32(self.0, 15)) + field_text(", input_32: "@, bit_u32(self.0, 17)) + field_text(", input_41: "@, bit_u32(self.0, 18)), field_text(", input_31_or_popup_top_menu: "@, bit_u32(self.0, 19)), field_text(", input_32: "@, bit_u32(self.0, 17)));
            lemma_shows_right(field_text(", input_25: "@, bit_u32(self.0, 15)) + field_text(", input_32: "@, bit_u32(self.0, 17)) + field_text(", input_41: "@, bit_u32(self.0, 18)) + field_text(", input_31_or_popup_top_menu: "@, bit_u32(self.0, 19)), field_text(", menu_brake_active: "@, bit_u32(self.0, 20)), field_text(", input_32: "@, bit_u32(self.0, 17)));
            assert(shows(self.debug_fields_3(), field_text(", input_32: "@, bit_u32(self.0, 17))));
            lemma_shows_left("CSMenuShownMenuFlags { .0: "@ + decimal_digits(self.0 as nat) + self.debug_fields_0() + self.debug_fields_1() + self.debug_fields_2(), self.debug_fields_3(), field_text(", input_32: "@, bit_u32(self.0, 17)));
            lemma_shows_right("CSMenuShownMenuFlags { .0: "@ + decimal_digits(self.0 as nat) + self.debug_fields_0() + self.debug_fields_1() + self.debug_fields_2() + self.debug_fields_3(), " }"@, field_text(", input_32: "@, bit_u32(self.0, 17)));
        }
        {
            lemma_shows_self(field_text(", input_41: "@, bit_u32(self.0, 18)));
            lemma_shows_left(field_text(", input_25: "@, bit_u32(self.0, 15)) + field_text(", input_32: "@, bit_u32(self.0, 17)), field_text(", input_41: "@, bit_u32(self.0, 18)), field_text(", input_41: "@, bit_u32(self.0, 18)));
            lemma_shows_right(field_text(", input_25: "@, bit_u32(self.0, 15)) + field_text(", input_32: "@, bit_u32(self.0, 17)) + field_text(", input_41: "@, bit_u32(self.0, 18)), field_text(", input_31_or_popup_top_menu: "@, bit_u32(self.0, 19)), field_text(", input_41: "@, bit_u32(self.0, 18)));
            lemma_shows_right(field_text(", input_25: "@, bit_u32(self.0, 15)) + field_text(", input_32: "@, bit_u32(self.0, 17)) + field_text(", input_41: "@, bit_u32(self.0, 18)) + field_text(", input_31_or_popup_top_menu: "@, bit_u32(self.0, 19)), field_text(", menu_brake_active: "@, bit_u32(self.0, 20)), field_text(", input_41: "@, bit_u32(self.0, 18)));
            assert(shows(self.debug_fields_3(), field_text(", input_41: "@, bit_u32(self.0, 18))));
            lemma_shows_left("CSMenuShownMenuFlags { .0: "@ + decimal_digits(self.0 as nat) + self.debug_fields_0() + self.debug_fields_1() + self.debug_fields_2(), self.debug_fields_3(), field_text(", input_41: "@, bit_u32(self.0, 18)));
            lemma_shows_right("CSMenuShownMenuFlags { .0: "@ + decimal_digits(self.0 as nat) + self.debug_fields_0() + self.debug_fields_1() + self.debug_fields_2() + self.debug_fields_3(), " }"@, field_text(", input_41: "@, bit_u32(self.0, 18)));
        }
        {
            lemma_shows_self(field_text(", input_31_or_popup_top_menu: "@, bit_u32(self.0, 19)));
            lemma_shows_left(field_text(", input_25: "@, bit_u32(self.0, 15)) + field_text(", input_32: "@, bit_u32(self.0, 17)) + field_text(", input_41: "@, bit_u32(self.0, 18)), field_text(", input_31_or_popup_top_menu: "@, bit_u32(self.0, 19)), field_text(", input_31_or_popup_top_menu: "@, bit_u32(self.0, 19)));
            lemma_shows_right(field_text(", input_25: "@, bit_u32(self.0, 15)) + field_text(", input_32: "@, bit_u32(self.0, 17)) + field_text(", input_41: "@, bit_u32(self.0, 18)) + field_text(", input_31_or_popup_top_menu: "@, bit_u32(self.0, 19)), field_text(", menu_brake_active: "@, bit_u32(self.0, 20)), field_text(", input_31_or_popup_top_menu: "@, bit_u32(self.0, 19)));
            assert(shows(self.debug_fields_3(), field_text(", input_31_or_popup_top_menu: "@, bit_u32(self.0, 19))));
            lemma_shows_left("CSMenuShownMenuFlags { .0: "@ + decimal_digits(self.0 as nat) + self.debug_fields_0() + self.debug_fields_1() + self.debug_fields_2(), self.debug_fields_3(), field_text(", input_31_or_popup_top_menu: "@, bit_u32(self.0, 19)));
            lemma_shows_right("CSMenuShownMenuFlags { .0: "@ + decimal_digits(self.0 as nat) + self.debug_fields_0() + self.debug_fields_1() + self.debug_fields_2() + self.debug_fields_3(), " }"@, field_text(", input_31_or_popup_top_menu: "@, bit_u32(self.0, 19)));
        }
        {
            lemma_shows_self(field_text(", menu_brake_active: "@, bit_u32(self.0, 20)));
            lemma_shows_left(field_text(", input_25: "@, bit_u32(self.0, 15)) + field_text(", input_32: "@, bit_u32(self.0, 17)) + field_text(", input_41: "@, bit_u32(self.0, 18)) + field_text(", input_31_or_popup_top_menu: "@, bit_u32(self.0, 19)), field_text(", menu_brake_active: "@, bit_u32(self.0, 20)), field_text(", menu_brake_active: "@, bit_u32(self.0, 20)));
            assert(shows(self.debug_fields_3(), field_text(", menu_brake_active: "@, bit_u32(self.0, 20))));
            lemma_shows_left("CSMenuShownMenuFlags { .0: "@ + decimal_digits(self.0 as nat) + self.debug_fields_0() + self.debug_fields_1() + self.debug_fields_2(), self.debug_fields_3(), field_text(", menu_brake_active: "@, bit_u32(self.0, 20)));
            lemma_shows_right("CSMenuShownMenuFlags { .0: "@ + decimal_digits(self.0 as nat) + self.debug_fields_0() + self.debug_fields_1() + self.debug_fields_2() + self.debug_fields_3(), " }"@, field_text(", menu_brake_active: "@, bit_u32(self.0, 20)));
        }
    }
}

/// Native `CS::CSMenuManImp` singleton layout.
///
/// Many `state_*` and `indexed_state_words_*` fields remain raw by design: the
/// recovered indexed-state setter accepts any
/// `index < CS_MENU_MAN_INDEXED_STATE_WORD_COUNT` and writes the caller-supplied dword into this table. That
/// disproves a single closed enum for the table as a whole; individual fields
/// are promoted to booleans, bitfields, enums, or semantic names only when their
/// own producer/consumer evidence is narrower.
pub struct CSMenuManImp {
    pub vftable: usize,
    pub menu_data: Option<NativePtr<CSMenuData>>,
    pub player_status_calculator: Option<NativePtr<PlayerStatusCalculator>>,
    /// Title/menu-job wait flag written by the menu-manager title wait helper.
    ///
    /// The constructor writes one qword at `+0x18`, but native code later accesses
    /// this prefix as independent byte/word fields rather than one aggregate.
    pub title_menu_job_wait_active: bool,
    /// Second title/menu-job wait latch toggled by the title-step menu-job wait path.
    pub title_menu_job_wait_latch: bool,
    pub disable_mouse_cursor: bool,
    /// Previous-frame player-death/death-effect latch used to close menu UI on the
    /// false-to-true transition.
    ///
    /// `CSMenuManImp::Update` derives the current value from main-player HP-zero or
    /// special effect `0x75`; when this latch was false and the current value is
    /// true, it closes player menus/popups and suppresses UI before storing it here.
    pub player_death_ui_cleanup_latch: bool,
    /// Current bitmask produced each frame by native `getShownMenuFlags`.
    ///
    /// The helper ORs together input-derived bits, menu-state bits, FE overlay
    /// state, popup-top-menu fallback bits, and `menuBrake`. It is therefore a
    /// bitmask, not a closed enum discriminant.
    pub shown_menu_flags: CSMenuShownMenuFlags,
    /// Native prefix byte at `+0x20`; constructor-cleared, with no non-constructor
    /// read/write recovered in the current static evidence. Kept split out because
    /// `+0x21` is independently read as the loading-screen prompt job gate.
    pub unresolved_prefix_byte_20: u8,
    /// Enables the loading-screen prompt queue/job update path in `CSMenuManImp::Update`.
    pub loading_screen_prompt_job_enabled: bool,
    /// Native `mtmskbnd` file-cap unloaded through `CSFile::UnloadFileCap` on teardown.
    pub mtmskbnd_file_cap: Option<NativePtr<FD4FileCap>>,
    pub popup_menu: Option<NativePtr<CSPopupMenu>>,
    /// Native menu-window job pointer; RTTI shows `CS::MenuWindowJob` derives [`MenuJobBase`].
    pub window_job: Option<NativePtr<MenuJobBase>>,
    pub menu_man_state_block_90: CSMenuManStateBlock90,
    /// Native 16-byte menu-manager state loaded from and saved to a stream as one payload.
    pub stream_state_e0: CSMenuManStreamStateE0,
    /// Native stream-parse flag updated by the `+0xf0` helper path.
    pub stream_flag_f0: bool,
    /// Native stream-parse flag updated by the `+0xf1` helper path.
    pub stream_flag_f1: bool,
    /// Native four-byte lookup vector also queried by the status-mask helper.
    pub dword_lookup_vector_f8: CSMenuManDwordLookupVectorF8,
    /// Native qword cleared by the menu-manager reset helper.
    pub reset_state_118_le_words: [u32; 0x2],
    /// Native menu-text state qword copied from the `+0x128` pair by menu-text handlers.
    pub menu_text_state_120_le_words: [u32; 0x2],
    /// Native menu-text state qword populated by the menu-text status message handler.
    pub menu_text_state_128_le_words: [u32; 0x2],
    /// Native menu-text qword state whose lower word is read while building the status mask.
    pub menu_text_state_130_le_words: [u32; 0x2],
    /// Native menu-text dirty flag set when `+0x128` is refreshed.
    pub menu_text_dirty_138: bool,
    /// Native menu-text shadow-state flag used when swapping `+0x120` and `+0x130`.
    pub menu_text_shadow_active_139: bool,
    /// disables all save menu callbacks
    /// additionally, can disable auto save
    pub disable_save_menu: u32,
    /// Native menu-manager state word with a direct runtime write xref in the 1.16.2 MCP dump.
    pub state_word_140: u32,
    /// Native indexed dword state-table slot covered by the native indexed-state setter.
    pub indexed_state_word_144: u32,
    /// Native menu-manager state word with a direct runtime write xref in the 1.16.2 MCP dump.
    pub state_word_148: u32,
    /// Native menu-text state word written by the menu-text display helper.
    pub menu_text_state_14c: i32,
    /// Native menu-text state word copied into the active menu-text qword when non-negative.
    pub menu_text_state_150: i32,
    /// Native indexed dword state-table segment covered by the native indexed-state setter.
    pub indexed_state_words_154: [u32; 0x7],
    /// Native menu-manager state word with a direct runtime write xref in the 1.16.2 MCP dump.
    pub state_word_170: u32,
    /// Native menu-manager state word with a direct runtime write xref in the 1.16.2 MCP dump.
    pub state_word_174: u32,
    /// Native menu-manager state word with a direct runtime write xref in the 1.16.2 MCP dump.
    pub state_word_178: u32,
    /// Native indexed dword state-table segment covered by the native indexed-state setter.
    pub indexed_state_words_17c: [u32; 0x3],
    /// Native menu-manager status state value read while building the status mask.
    pub status_state_188: i32,
    /// Native indexed dword state-table segment covered by the native indexed-state setter.
    pub indexed_state_words_18c: [u32; 0x4],
    /// Native menu-manager state value read and written by queue/update helper paths.
    pub state_value_19c: i32,
    /// Native indexed dword state-table segment covered by the native indexed-state setter.
    pub indexed_state_words_1a0: [u32; 0x6],
    /// Native menu-manager state value written by menu transition helper paths.
    pub state_value_1b8: i32,
    /// Native indexed dword state-table slot covered by the native indexed-state setter.
    pub indexed_state_word_1bc: u32,
    /// Native menu-manager state word with a direct runtime write xref in the 1.16.2 MCP dump.
    pub state_word_1c0: u32,
    /// Native indexed dword state-table segment covered by the native indexed-state setter.
    pub indexed_state_words_1c4: [u32; 0x4],
    /// Native menu-manager state value reset by title/menu helper paths.
    pub state_value_1d4: i32,
    /// Native menu-manager state value reset by title/menu helper paths.
    pub state_value_1d8: i32,
    /// Native indexed dword state-table segment covered by the native indexed-state setter.
    pub indexed_state_words_1dc: [u32; 0x4],
    /// Native menu-manager state value read and written by queue/update helper paths.
    pub state_value_1ec: i32,
    /// Native indexed dword state-table segment covered by the native indexed-state setter.
    pub indexed_state_words_1f0: [u32; 0x6],
    /// Native menu-manager state word with a direct runtime write xref in the 1.16.2 MCP dump.
    pub state_word_208: u32,
    /// Native indexed dword state-table segment covered by the native indexed-state setter.
    pub indexed_state_words_20c: [u32; 0x9],
    /// Popup selection result mirrored from [`CSPopupMenu::input_buffer_184`].
    ///
    /// The popup selection helper writes the same result index to `PopupMenuInputBuffer+0x1c`
    /// and this manager slot; native cancel helpers write `0`, while queued selection
    /// helpers write the selected index plus one.
    pub popup_selection_result_index: i32,
    /// Native indexed dword state-table segment covered by the native indexed-state setter.
    pub indexed_state_words_234: [u32; 0x7],
    /// Native menu-manager state word with a direct runtime write xref in the 1.16.2 MCP dump.
    pub state_word_250: u32,
    /// Native indexed dword state-table segment covered by the native indexed-state setter.
    pub indexed_state_words_254: [u32; 0x3],
    /// Native menu-manager state value reset to `-1` by menu helper paths.
    pub state_value_260: i32,
    /// Native indexed dword state-table segment covered by the native indexed-state setter.
    pub indexed_state_words_264: [u32; 0x13],
    /// Native menu-manager state flag written by menu helper paths.
    pub state_flag_2b0: u32,
    /// Native indexed dword state-table segment covered by the native indexed-state setter.
    pub indexed_state_words_2b4: [u32; 0xb],
    /// Native menu-manager state word with a direct runtime write xref in the 1.16.2 MCP dump.
    pub state_word_2e0: u32,
    /// Native menu-manager state value written by menu helper paths.
    pub state_value_2e4: i32,
    /// Native indexed dword state-table segment covered by the native indexed-state setter.
    pub indexed_state_words_2e8: [u32; 0xf],
    /// Native menu-brake value from the 1.16.2 `CSMenuManImp` layout.
    pub menu_brake: i32,
    /// Native menu-manager state word with a direct runtime write xref in the 1.16.2 MCP dump.
    pub state_word_328: u32,
    /// Native menu-manager state value read by status-message handling.
    pub state_value_32c: i32,
    /// Native state word preserved across the menu-manager state reset path.
    pub reset_preserved_word_330: u32,
    /// Native indexed dword state-table slot covered by the native indexed-state setter.
    pub indexed_state_word_334: u32,
    /// Native state word preserved across the menu-manager state reset path.
    pub reset_preserved_word_338: u32,
    /// Native indexed dword state-table slot covered by the native indexed-state setter.
    pub indexed_state_word_33c: u32,
    /// Native menu-manager status state value read while building the status mask.
    pub status_state_340: i32,
    /// Native menu-manager state value reset to `-1` by menu helper paths.
    pub state_value_344: i32,
    /// Native indexed dword state-table segment covered by the native indexed-state setter.
    pub indexed_state_words_348: [u32; 0x5],
    /// Native menu-manager state value written by menu helper paths.
    pub state_value_35c: i32,
    /// Native indexed dword state-table slot covered by the native indexed-state setter.
    pub indexed_state_word_360: u32,
    /// Native menu-manager state value reset to `-1` by menu helper paths.
    pub state_value_364: i32,
    /// Native indexed dword state-table segment covered by the native indexed-state setter.
    pub indexed_state_words_368: [u32; 0x2],
    /// Native menu-manager state word with a direct runtime write xref in the 1.16.2 MCP dump.
    pub state_word_370: u32,
    /// Native indexed dword state-table segment covered by the native indexed-state setter.
    pub indexed_state_words_374: [u32; 0x7],
    /// Native menu-manager state value read while evaluating menu helper paths.
    pub state_value_390: i32,
    /// Native menu-manager state value cached and reused by menu helper paths.
    pub state_value_394: i32,
    /// Native menu-manager state value cached and compared by menu helper paths.
    pub state_value_398: i32,
    /// Native indexed dword state-table segment covered by the native indexed-state setter.
    pub indexed_state_words_39c: [u32; 0x7],
    /// Native menu-manager state word with a direct runtime write xref in the 1.16.2 MCP dump.
    pub state_word_3b8: u32,
    /// Native indexed dword state-table segment covered by the native indexed-state setter.
    pub indexed_state_words_3bc: [u32; 0x11],
    /// Native menu-manager state word with a direct runtime write xref in the 1.16.2 MCP dump.
    pub state_word_400: u32,
    /// Native indexed dword state-table segment covered by the native indexed-state setter.
    pub indexed_state_words_404: [u32; 0x11],
    /// Native menu-manager state word with a direct runtime write xref in the 1.16.2 MCP dump.
    pub state_word_448: u32,
    /// Native indexed dword state-table segment covered by the native indexed-state setter.
    pub indexed_state_words_44c: [u32; 0xc],
    /// Native menu-manager state word read and reset by event/status helper paths.
    pub state_word_47c: u32,
    /// Native menu-manager state word read and reset by event/status helper paths.
    pub state_word_480: u32,
    /// Native menu-manager state word read and reset by event/status helper paths.
    pub state_word_484: u32,
    /// Native menu-manager state word read and reset by event/status helper paths.
    pub state_word_488: u32,
    /// Native indexed dword state-table slot covered by the native indexed-state setter.
    pub indexed_state_word_48c: u32,
    /// Native menu-manager state word with a direct runtime write xref in the 1.16.2 MCP dump.
    pub state_word_490: u32,
    /// Native menu-manager state flag set before event/status helper dispatch.
    pub event_state_flag_494: u32,
    /// Native menu-manager state flag read by event/status helper dispatch.
    pub event_state_flag_498: u32,
    /// Native indexed dword state-table slot covered by the native indexed-state setter.
    pub indexed_state_word_49c: u32,
    /// Native menu-manager state flag set by the title/menu transition helper.
    pub transition_state_flag_4a0: u32,
    /// Native indexed dword state-table segment covered by the native indexed-state setter.
    pub indexed_state_words_4a4: [u32; 0xd],
    /// Native menu-manager state word with a direct runtime write xref in the 1.16.2 MCP dump.
    pub state_word_4d8: u32,
    /// Native indexed dword state-table segment covered by the native indexed-state setter.
    pub indexed_state_words_4dc: [u32; 0x11],
    /// Native menu-manager state word with a direct runtime write xref in the 1.16.2 MCP dump.
    pub state_word_520: u32,
    /// Native indexed dword state-table segment covered by the native indexed-state setter.
    pub indexed_state_words_524: [u32; 0x11],
    /// Native menu-manager state word with a direct runtime write xref in the 1.16.2 MCP dump.
    pub state_word_568: u32,
    /// Native indexed dword state-table segment covered by the native indexed-state setter.
    pub indexed_state_words_56c: [u32; 0x27],
    /// Native reset-helper dword range cleared from `+0x608` through `+0x653`.
    pub reset_state_words_608: [u32; 0x13],
    /// Final native indexed dword state-table slot covered by the native indexed-state setter.
    pub indexed_state_word_654: u32,
    /// Forces the same cutscene/menu-blocking condition that `CSRemoImp::IsInCutscene` reports.
    ///
    /// The cutscene-menu visibility helper returns true when either this flag is set or
    /// the remo/cutscene singleton reports an active cutscene. No writer beyond
    /// construction has been recovered yet, so the producer is still unresolved.
    pub cutscene_menu_block_override: bool,
    pub player_menu_ctrl: CSPlayerMenuCtrl,
    pub null_player_menu_ctrl: NullPlayerMenuCtrl,
    pub back_screen_data: BackScreenData,
    pub loading_screen_data: LoadingScreenData,
    /// Reference-counted loading-screen/prompt object released by `CSMenuManImp::Unref`.
    pub loading_screen_prompt_reference: ReferenceCountedObjectSlot,
    pub menu_man_state_block_7a0: CSMenuManStateBlock7a0,
    /// Last low-byte result returned by the `CSMenuManStateBlock7a0` text-processing helper.
    ///
    /// The menu-manager text-processing update stores the status-text processor result byte
    /// here each update. No later consumer has been recovered, so this remains
    /// raw status storage rather than an enum.
    pub text_processing_result: u8,
    /// Native padding byte after [`Self::text_processing_result`].
    pub _pad_859: u8,
    /// Constructor-cleared tail flag next to the text-processing result; no
    /// non-constructor read/write has been recovered yet.
    pub unresolved_text_processing_tail_flag: bool,
    /// Native `CS::FeSystemAnnounceViewModel` pointer allocated by the constructor.
    pub system_announce_view_model: Option<NativePtr<FeSystemAnnounceViewModel>>,
    /// Debug-menu root used when registering menu-manager debug entries.
    ///
    /// `CSMenuManImp` debug setup stores the FD4 debug-menu root node here when
    /// `GLOBAL_FD4DebugMenuManager` exists.
    pub debug_menu_root: Option<NativePtr<FD4DebugMenuNode>>,
    pub tail_flags_898: CSMenuManTailFlags898,
}

/// The derived `Debug` prints the tuple form; [`Self::debug_text`] gives the
/// bitfield rendering, the raw word followed by every named bit.
#[derive(Clone, Copy, Debug, PartialEq, Eq, Hash, Structural)]
pub struct CSMenuInputFlags(pub u8);

impl CSMenuInputFlags {
    /// Menu input is currently down/active.
    pub fn is_down(&self) -> (r: bool)
        ensures
            r == bit_u8(self.0, 0),
    {
        (self.0 >> 0u8) & 1u8 == 1u8
    }

    /// Menu input became active in the current input sample.
    ///
    /// Native call sites test `(flags & 3) == 3` when they require both this
    /// edge bit and [`Self::is_down`].
    pub fn triggered(&self) -> (r: bool)
        ensures
            r == bit_u8(self.0, 1),
    {
        (self.0 >> 1u8) & 1u8 == 1u8
    }

    /// Named bits 0 onward of the debug rendering, each as `, name: bool`.
    pub open spec fn debug_fields_0(self) -> Seq<char> {
        field_text(", is_down: "@, bit_u8(self.0, 0)) + field_text(", triggered: "@, bit_u8(self.0, 1))
    }

    fn append_debug_fields_0(&self, out: &mut String)
        ensures
            final(out)@ == old(out)@ + self.debug_fields_0(),
    {
        let ghost start = out@;
        append_field(out, ", is_down: ", self.is_down());
        append_field(out, ", triggered: ", self.triggered());
        proof {
            assert(out@ =~= start + self.debug_fields_0());
        }
    }

    /// The word followed by every named bit, as `Name { .0: word, bit: bool, .. }`.
    pub open spec fn debug_text_spec(self) -> Seq<char> {
        "CSMenuInputFlags { .0: "@ + decimal_digits(self.0 as nat) + self.debug_fields_0() + " }"@
    }

    /// The debug rendering: the raw word, then each named bit in declaration
    /// order, as `CSMenuInputFlags { .0: <word>, <bit>: <bool>, .. }`.
    pub fn debug_text(&self) -> (r: String)
        ensures
            r@ == self.debug_text_spec(),
    {
        let mut out = String::new();
        append_literal(&mut out, "CSMenuInputFlags { .0: ");
        append_decimal(&mut out, self.0 as u64);
        self.append_debug_fields_0(&mut out);
        append_literal(&mut out, " }");
        out
    }

    /// In the debug text, each name is followed by the value of its getter:
    /// `, name: ` and then `true` exactly when that name's bit is set.
    pub proof fn lemma_debug_text_shows_bits(self)
        ensures
            shows(self.debug_text_spec(), field_text(", is_down: "@, bit_u8(self.0, 0))),
            shows(self.debug_text_spec(), field_text(", triggered: "@, bit_u8(self.0, 1))),
    {
        {
            lemma_shows_self(field_text(", is_down: "@, bit_u8(self.0, 0)));
            lemma_shows_right(field_text(", is_down: "@, bit_u8(self.0, 0)), field_text(", triggered: "@, bit_u8(self.0, 1)), field_text(", is_down: "@, bit_u8(self.0, 0)));
            assert(shows(self.debug_fields_0(), field_text(", is_down: "@, bit_u8(self.0, 0))));
            lemma_shows_left("CSMenuInputFlags { .0: "@ + decimal_digits(self.0 as nat), self.debug_fields_0(), field_text(", is_down: "@, bit_u8(self.0, 0)));
            lemma_shows_right("CSMenuInputFlags { .0: "@ + decimal_digits(self.0 as nat) + self.debug_fields_0(), " }"@, field_text(", is_down: "@, bit_u8(self.0, 0)));
        }
        {
            lemma_shows_self(field_text(", triggered: "@, bit_u8(self.0, 1)));
            lemma_shows_left(field_text(", is_down: "@, bit_u8(self.0, 0)), field_text(", triggered: "@, bit_u8(self.0, 1)), field_text(", triggered: "@, bit_u8(self.0, 1)));
            assert(shows(self.debug_fields_0(), field_text(", triggered: "@, bit_u8(self.0, 1))));
            lemma_shows_left("CSMenuInputFlags { .0: "@ + decimal_digits(self.0 as nat), self.debug_fields_0(), field_text(", triggered: "@, bit_u8(self.0, 1)));
            lemma_shows_right("CSMenuInputFlags { .0: "@ + decimal_digits(self.0 as nat) + self.debug_fields_0(), " }"@, field_text(", triggered: "@, bit_u8(self.0, 1)));
        }
    }
}

impl CSMenuInputFlags {
    /// The native `(flags & 3) == 3` test holds exactly when the input is
    /// both down and newly triggered.
    pub proof fn lemma_down_and_triggered_mask(self)
        ensures
            (self.0 & 3u8 == 3u8) <==> (bit_u8(self.0, 0) && bit_u8(self.0, 1)),
    {
        let v = self.0;
        assert((v & 3u8 == 3u8) <==> (((v >> 0u8) & 1u8 == 1u8) && ((v >> 1u8) & 1u8 == 1u8)))
            by (bit_vector);
    }
}

pub struct CSMenuManStateBlock90 {
    /// Per-menu-input state table indexed by native menu input ids.
    ///
    /// Native call sites bounds-check indices against `0x47` and read
    /// `CSMenuManImp+0x90+index`, testing bit 0 for active/down input and
    /// `(bits 0..=1) == 3` for a newly-triggered active input.
    pub input_flags: [CSMenuInputFlags; CS_MENU_INPUT_FLAG_COUNT],
    pub _pad_047: u8,
    /// Constructor-cleared trailing state word after the input flag table.
    pub state_word_48: u16,
}

/// The derived `Debug` prints the tuple form; [`Self::debug_text`] gives the
/// bitfield rendering, the raw word followed by every named bit.
#[derive(Clone, Copy, Debug, PartialEq, Eq, Hash, Structural)]
pub struct CSMenuManStateBlock7a0TextFlags(pub u32);

impl CSMenuManStateBlock7a0TextFlags {
    /// Copied from the source text object at `+0x68` and tested before text processing.
    pub fn source_text_flag0(&self) -> (r: bool)
        ensures
            r == bit_u32(self.0, 0),
    {
        (self.0 >> 0u32) & 1u32 == 1u32
    }

    /// Copied from the source text object at `+0x69` and selects the normalization path.
    pub fn source_text_flag1(&self) -> (r: bool)
        ensures
            r == bit_u32(self.0, 1),
    {
        (self.0 >> 1u32) & 1u32 == 1u32
    }

    /// Named bits 0 onward of the debug rendering, each as `, name: bool`.
    pub open spec fn debug_fields_0(self) -> Seq<char> {
        field_text(", source_text_flag0: "@, bit_u32(self.0, 0)) + field_text(", source_text_flag1: "@, bit_u32(self.0, 1))
    }

    fn append_debug_fields_0(&self, out: &mut String)
        ensures
            final(out)@ == old(out)@ + self.debug_fields_0(),
    {
        let ghost start = out@;
        append_field(out, ", source_text_flag0: ", self.source_text_flag0());
        append_field(out, ", source_text_flag1: ", self.source_text_flag1());
        proof {
            assert(out@ =~= start + self.debug_fields_0());
        }
    }

    /// The word followed by every named bit, as `Name { .0: word, bit: bool, .. }`.
    pub open spec fn debug_text_spec(self) -> Seq<char> {
        "CSMenuManStateBlock7a0TextFlags { .0: "@ + decimal_digits(self.0 as nat) + self.debug_fields_0() + " }"@
    }

    /// The debug rendering: the raw word, then each named bit in declaration
    /// order, as `CSMenuManStateBlock7a0TextFlags { .0: <word>, <bit>: <bool>, .. }`.
    pub fn debug_text(&self) -> (r: String)
        ensures
            r@ == self.debug_text_spec(),
    {
        let mut out = String::new();
        append_literal(&mut out, "CSMenuManStateBlock7a0TextFlags { .0: ");
        append_decimal(&mut out, self.0 as u64);
        self.append_debug_fields_0(&mut out);
        append_literal(&mut out, " }");
        out
    }

    /// In the debug text, each name is followed by the value of its getter:
    /// `, name: ` and then `true` exactly when that name's bit is set.
    pub proof fn lemma_debug_text_shows_bits(self)
        ensures
            shows(self.debug_text_spec(), field_text(", source_text_flag0: "@, bit_u32(self.0, 0))),
            shows(self.debug_text_spec(), field_text(", source_text_flag1: "@, bit_u32(self.0, 1))),
    {
        {
            lemma_shows_self(field_text(", source_text_flag0: "@, bit_u32(self.0, 0)));
            lemma_shows_right(field_text(", source_text_flag0: "@, bit_u32(self.0, 0)), field_text(", source_text_flag1: "@, bit_u32(self.0, 1)), field_text(", source_text_flag0: "@, bit_u32(self.0, 0)));
            assert(shows(self.debug_fields_0(), field_text(", source_text_flag0: "@, bit_u32(self.0, 0))));
            lemma_shows_left("CSMenuManStateBlock7a0TextFlags { .0: "@ + decimal_digits(self.0 as nat), self.debug_fields_0(), field_text(", source_text_flag0: "@, bit_u32(self.0, 0)));
            lemma_shows_right("CSMenuManStateBlock7a0TextFlags { .0: "@ + decimal_digits(self.0 as nat) + self.debug_fields_0(), " }"@, field_text(", source_text_flag0: "@, bit_u32(self.0, 0)));
        }
        {
            lemma_shows_self(field_text(", source_text_flag1: "@, bit_u32(self.0, 1)));
            lemma_shows_left(field_text(", source_text_flag0: "@, bit_u32(self.0, 0)), field_text(", source_text_flag1: "@, bit_u32(self.0, 1)), field_text(", source_text_flag1: "@, bit_u32(self.0, 1)));
            assert(shows(self.debug_fields_0(), field_text(", source_text_flag1: "@, bit_u32(self.0, 1))));
            lemma_shows_left("CSMenuManStateBlock7a0TextFlags { .0: "@ + decimal_digits(self.0 as nat), self.debug_fields_0(), field_text(", source_text_flag1: "@, bit_u32(self.0, 1)));
            lemma_shows_right("CSMenuManStateBlock7a0TextFlags { .0: "@ + decimal_digits(self.0 as nat) + self.debug_fields_0(), " }"@, field_text(", source_text_flag1: "@, bit_u32(self.0, 1)));
        }
    }
}

pub struct CSMenuManStateBlock7a0 {
    pub active: bool,
    /// Status-text state word initialized to `0x200` by the native constructor.
    ///
    /// No non-constructor read/write has been recovered yet, so this remains raw
    /// storage rather than a named enum or bitfield.
    pub unresolved_status_text_word_68: u32,
    /// Native padding before the `+0x70` status-text flag/result block.
    pub _pad_6c: [u8; 0x4],
    /// Flags copied from the active source text object before status-text processing.
    ///
    /// The status-text request helper copies bits from source object `+0x68` into this word;
    /// the status-text processing helper then tests bit 0 before processing the status text and
    /// bit 1 to select the text-normalization path.
    pub text_processing_flags: CSMenuManStateBlock7a0TextFlags,
    /// Text request phase checked for `1`, advanced to `2`, and reset to `0`.
    pub text_request_phase: u32,
    /// Result kind derived from `FUN_1424170c0` (`2 -> 1`, `3 -> 2`).
    pub text_result_kind: u32,
    /// Status-text normalization fallback flag set by the status-text processing helper.
    ///
    /// The native helper stores the text-normalization result here after it converts
    /// the pending status text into the native status text, so this is a byte flag
    /// rather than one half of a constructor-only word.
    pub status_text_normalization_fallback: bool,
    /// Set while status-text processing is pending.
    ///
    /// The status-text request helper sets this when a text-processing request is accepted and
    /// both the request and abandon helpers clear it after the request is
    /// consumed or abandoned.
    pub status_text_processing_pending: bool,
    /// Native tail padding extending the inline block to `CSMenuManImp+0x858`.
    pub _pad_b2: [u8; 0x6],
}

pub struct CSMenuManTailFlags898 {
    /// Constructor-initialized tail-state enable byte, defaulting to `1`.
    pub enabled: u8,
    /// Result of `MenuMan.EnableTopMenuDebug`.
    pub top_menu_debug_enabled: u8,
    /// Result of `MenuMan.EnableHelpMenuWorkaround`.
    pub help_menu_workaround_enabled: u8,
    /// Native tail flag read by event/status dispatch paths.
    pub state_flag_03: u8,
    /// Native tail flag read together with `+0x89b` by event/status dispatch paths.
    pub state_flag_04: u8,
    /// Native tail flag read by event/status dispatch paths.
    pub state_flag_05: u8,
    /// Constructor-cleared tail bytes with no narrower static evidence yet.
    pub reserved_tail_06: [u8; 0x2],
}

impl CSMenuManTailFlags898 {
    /// Whether `MenuMan.EnableTopMenuDebug` returned true during construction.
    pub fn top_menu_debug_enabled(&self) -> (r: bool)
        ensures
            r == (self.top_menu_debug_enabled != 0),
    {
        self.top_menu_debug_enabled != 0
    }

    /// Whether `MenuMan.EnableHelpMenuWorkaround` returned true during construction.
    pub fn help_menu_workaround_enabled(&self) -> (r: bool)
        ensures
            r == (self.help_menu_workaround_enabled != 0),
    {
        self.help_menu_workaround_enabled != 0
    }
}



impl CSMenuManImp {
    /// The per-menu-input state table.
    pub fn menu_input_flags(&self) -> (r: &[CSMenuInputFlags; CS_MENU_INPUT_FLAG_COUNT])
        ensures
            r == &self.menu_man_state_block_90.input_flags,
    {
        &self.menu_man_state_block_90.input_flags
    }

    /// The state of menu input `index`, or `None` past the end of the table.
    pub fn menu_input_flags_at(&self, index: usize) -> (r: Option<CSMenuInputFlags>)
        ensures
            r == (if index < CS_MENU_INPUT_FLAG_COUNT {
                Some(self.menu_man_state_block_90.input_flags@[index as int])
            } else {
                None
            }),
    {
        let flags = self.menu_input_flags();
        if index < CS_MENU_INPUT_FLAG_COUNT {
            Some(flags[index])
        } else {
            None
        }
    }
}


/// Native `CS::CSMenuData` layout.
///
/// Constructor-only `state_*` slots stay raw until a producer/consumer path
/// proves a narrower invariant. Known closed or semi-closed fields are modeled
/// separately, for example [`CSMenuGaitemUseState`] and
/// [`CSMenuData::yes_no_sign_menu_result`].
pub struct CSMenuDataDisplayGhostRequest {
    /// Non-zero word enables the display-ghost request consumer.
    ///
    /// The display-ghost request helper receives this record as a `short*` and returns false
    /// immediately when this word is zero.
    pub request_word: u16,
    /// Native reset writes `0xff` here before clearing the remaining payload.
    pub sentinel_byte_02: u8,
    pub _pad_03: u8,
    /// Tail payload copied as part of display ghost construction.
    ///
    /// The consumer copies the qword at `+0x0` and the dword at `+0x8`; this
    /// qword tail is stored as two words because it is only 4-byte aligned.
    pub payload_qword_04_le_words: [u32; 0x2],
}

pub struct CSMenuData {
    pub vftable: usize,
    pub text_entry_8: CSMenuDataTextEntry,
    /// Native bytes preceding [`Self::yes_no_sign_menu_result`].
    pub menu_result_prefix_50: [u8; 0x3],
    /// Result flag read by `CSMenuManImp::IsYesSignMenuOptionSelected`.
    pub yes_no_sign_menu_result: bool,
    /// Raw menu-data mode byte initialized to `2`.
    ///
    /// No complete producer/consumer boundary has been recovered yet, so this is
    /// intentionally not modeled as an exhaustive enum.
    pub mode_54: u8,
    /// Raw menu-data index initialized to `-1`.
    ///
    /// No complete consumer has been recovered yet, so this remains a raw signed
    /// index rather than a closed set of states.
    pub state_index_58: i32,
    pub show_steam_names: bool,
    /// Tail byte paired with the native `show_steam_names` word store.
    pub name_display_flags_tail: u8,
    /// Bypasses summon-message priority filtering while transition/reload state needs priority.
    ///
    /// `MoveMapStep` recomputes this from warp, reload, dead-reset, multiplayer,
    /// name-display, and related transition state. `CS::SummonMsgQueue::AddEntry`
    /// then checks this byte and skips the normal priority comparison while it
    /// is set.
    pub summon_msg_priority_bypass: bool,
    /// Pending display-ghost payload consumed while the main player has special-effect state `417`.
    ///
    /// The player update path passes this record to the display-ghost request helper, which uses
    /// the current player position/name plus this payload to build `CSDisplayGhostData`,
    /// then clears the request word/sentinel/tail when the state has been consumed.
    pub display_ghost_request: CSMenuDataDisplayGhostRequest,
    /// Native tail word after [`Self::display_ghost_request`].
    ///
    /// The constructor initializes this to `2`; no non-constructor read/write has
    /// been recovered yet.
    pub unresolved_display_ghost_tail_word: u16,
    pub menu_gaitem_use_state: CSMenuGaitemUseState,
    /// Native by-value menu-data record at `+0x88`.
    ///
    /// Source of layout: `CSMenuData::CSMenuData` calls the menu-record initializer here;
    /// that helper clears one qword followed by one dword and no destructor or
    /// ownership path touches it, so it is modeled as value storage rather than
    /// as an owned pointer slot.
    pub menu_record_88: CSMenuDataMenuRecord,
    /// Native by-value record initialized by the aux-record initializer at `CSMenuData+0x94`.
    ///
    /// That helper clears the qword, word, and dword fields as one record. No
    /// non-constructor xref to the helper has been recovered yet, so the semantic
    /// role of the record remains unresolved rather than split into independent
    /// constructor-only words.
    pub aux_record_94: CSMenuDataAuxRecord94,
    pub text_entry_a8: CSMenuDataTextEntry,
}

/// Small by-value native menu-data record constructed at `CSMenuData+0x88`.
pub struct CSMenuDataMenuRecord {
    /// Native qword stored as words because the record is only 4-byte aligned
    /// inside [`CSMenuData`].
    pub qword_le_words: [u32; 0x2],
    /// Native dword at record offset `+0x8`.
    pub dword: u32,
}

/// Native by-value record constructed at `CSMenuData+0x94`.
///
/// `CSMenuData::CSMenuData` calls the aux-record initializer here; that helper clears one
/// qword, one word, and one dword while leaving alignment padding between and
/// after those fields.
pub struct CSMenuDataAuxRecord94 {
    pub qword_le_words: [u32; 0x2],
    pub word_08: u16,
    pub _pad_0a: [u8; 0x2],
    pub dword_0c: u32,
    pub _pad_10: [u8; 0x4],
}

pub struct CSMenuGaitemUseState {
    pub vftable: usize,
    /// Native use-state byte: constructor clears it, populate path sets `1`,
    /// transition path promotes `1` to `2`, and reset path clears `2` back to `0`.
    pub state: u8,
    pub state_pad_09: [u8; 0x3],
    /// Native word copied from the source item/context at `+0x48` when populated.
    pub source_word_10: u32,
    /// Native request word copied from the populate helper argument.
    pub request_word_14: u32,
}

pub struct CSMenuDataTextEntry {
    /// Constructor-supplied entry id, initialized from `0xffff` in the default path.
    pub entry_id: u16,
    /// Static UTF-16 string pointer copied from native `MenuString` storage.
    pub static_string: Option<NativePtr<u16>>,
    pub active: bool,
    /// Caption component slot selected by caption/menu-window update code.
    ///
    /// The caption update path compares this value against caption component indices
    /// `0..3`; the matching component receives this text entry and the other
    /// components receive an empty entry.
    pub caption_component_index: u16,
    /// Caption display depth/order index.
    ///
    /// The caption component setup path clamps this signed value to `0..0xff`, adds one, and
    /// passes it to the Scaleform text component setup helper. `-1` therefore
    /// maps to the fallback depth/order value.
    pub caption_depth_index: i16,
}

/// Native `CS::MenuViewModel` base for concrete menu view models.
///
/// Source of name: RTTI. Derived view-model constructors initialize this base
/// before installing their concrete vtables.
pub struct MenuViewModel {
    pub vftable: usize,
    /// Scene object proxy retained by the menu-view-model base.
    ///
    /// `CS::MenuViewModel::MenuViewModel` clears this pointer, and scaleform
    /// object glue constructs [`SceneObjProxy`] objects from loaded GFx values.
    pub view: Option<NativePtr<SceneObjProxy>>,
}

/// Native component proxy header used by scaleform scene object proxies.
pub struct ComponentProxy {
    pub vftable: usize,
}

/// Native `CS::SceneObjProxy` wrapper for a scaleform scene object.
///
/// Source of layout: Ghidra structure `CS::SceneObjProxy`; native
/// `SceneObjProxy` constructors initialize the component-proxy header, scene
/// object handle at `+0x20`, and [`CSScaleformValue`] at `+0x28`.
pub struct SceneObjProxy {
    pub component_proxy: ComponentProxy,
    pub _reserved_008: [u8; 0x18],
    pub scene_object_handle: usize,
    pub scaleform_value: CSScaleformValue,
}

pub struct CSScaleformValue {
    pub vftable: usize,
    pub value: ScaleformGfxValue,
}

pub struct ScaleformGfxValue {
    pub gc_prev: Option<NativePtr<ScaleformGfxValue>>,
    pub gc_next: Option<NativePtr<ScaleformGfxValue>>,
    pub object_interface: Option<NativePtr<ScaleformGfxObjectInterface>>,
    pub data_type: i32,
    pub _pad_01c: [u8; 0x4],
    /// Variant payload used by Scaleform GFx; interpretation depends on `data_type`.
    pub value_payload: usize,
    /// Auxiliary variant payload used by Scaleform GFx.
    pub data_aux: usize,
}

pub struct ScaleformGfxObjectInterface {
    pub vftable: usize,
}

/// Native `CS::WorldMapViewModel` popup-menu view model.
///
/// Static evidence: `CSPopupMenu` allocates a `0x450`-byte object, calls the
/// `CS::WorldMapViewModel` constructor, stores the result at `CSPopupMenu+0x250`,
/// and that constructor writes the `CS::WorldMapViewModel` vtable at object `+0x0`.
///
/// This is intentionally only the known prefix. The remaining native object
/// tail is not modeled until its field layout is reversed.
pub struct WorldMapViewModel {
    pub vftable: usize,
}

/// Native `CS::MultiPlayViewModel` popup-menu view model.
///
/// Source of layout: Ghidra structure `CS::MultiPlayViewModel`; its
/// constructor calls [`MenuViewModel`]'s constructor, installs the concrete
/// vtable, and constructs the three `MenuString` fields in order.
pub struct MultiPlayViewModel {
    pub base: MenuViewModel,
}

/// Native `CS::WorldMapTileBackReader` object allocated by [`CSPopupMenu`].
///
/// Source of name: RTTI. Constructor code installs the vtable, initializes the
/// inline fixed vector at `+0x8` with capacity 8, and destructor code walks
/// entries as 0x18-byte records with the count at `+0xc8`.
pub struct WorldMapTileBackReader {
    pub vftable: usize,
}

/// Bucket in `CS::WorldMapTileBackReader`'s fixed vector of tile-back maps.
///
/// Source of layout: the tile-back-reader constructor builds eight 0x18-byte maps;
/// the map initializer copies the allocator, allocates a sentinel node, and keeps a
/// node count at `+0x10`. The lookup helper indexes this bucket array by
/// world-map tab and searches nodes by tile id.
pub struct WorldMapTileBackBucket {
    pub sentinel: Option<NativePtr<WorldMapTileBackNode>>,
    pub len: usize,
}

/// Red-black tree node used by [`WorldMapTileBackBucket`].
///
/// Node cleanup releases the reference-counted menu job at
/// `+0x28`; lookup compares `tile_id` at `+0x20` and clones the
/// same job pointer when a matching tile exists.
pub struct WorldMapTileBackNode {
    pub left: Option<NativePtr<WorldMapTileBackNode>>,
    pub parent: Option<NativePtr<WorldMapTileBackNode>>,
    pub right: Option<NativePtr<WorldMapTileBackNode>>,
    pub color: u8,
    pub is_nil: bool,
    pub _pad_01a: [u8; 0x6],
    pub tile_id: u16,
    pub _pad_022: [u8; 0x6],
    pub job: Option<NativePtr<MenuJobBase>>,
}

/// The derived `Debug` prints the tuple form; [`Self::debug_text`] gives the
/// bitfield rendering, the raw word followed by every named bit.
#[derive(Clone, Copy, Debug, PartialEq, Eq, Hash, Structural)]
pub struct PopupMoveMapFlags(pub u16);

impl PopupMoveMapFlags {
    /// Set by `MoveMapStep` when menu input slot `0x1c`
    /// is outside the native input-state table or not currently active.
    pub fn menu_input_1c_inactive(&self) -> (r: bool)
        ensures
            r == bit_u16(self.0, 8),
    {
        (self.0 >> 8u16) & 1u16 == 1u16
    }

    /// Named bits 0 onward of the debug rendering, each as `, name: bool`.
    pub open spec fn debug_fields_0(self) -> Seq<char> {
        field_text(", menu_input_1c_inactive: "@, bit_u16(self.0, 8))
    }

    fn append_debug_fields_0(&self, out: &mut String)
        ensures
            final(out)@ == old(out)@ + self.debug_fields_0(),
    {
        let ghost start = out@;
        append_field(out, ", menu_input_1c_inactive: ", self.menu_input_1c_inactive());
        proof {
            assert(out@ =~= start + self.debug_fields_0());
        }
    }

    /// The word followed by every named bit, as `Name { .0: word, bit: bool, .. }`.
    pub open spec fn debug_text_spec(self) -> Seq<char> {
        "PopupMoveMapFlags { .0: "@ + decimal_digits(self.0 as nat) + self.debug_fields_0() + " }"@
    }

    /// The debug rendering: the raw word, then each named bit in declaration
    /// order, as `PopupMoveMapFlags { .0: <word>, <bit>: <bool>, .. }`.
    pub fn debug_text(&self) -> (r: String)
        ensures
            r@ == self.debug_text_spec(),
    {
        let mut out = String::new();
        append_literal(&mut out, "PopupMoveMapFlags { .0: ");
        append_decimal(&mut out, self.0 as u64);
        self.append_debug_fields_0(&mut out);
        append_literal(&mut out, " }");
        out
    }

    /// In the debug text, each name is followed by the value of its getter:
    /// `, name: ` and then `true` exactly when that name's bit is set.
    pub proof fn lemma_debug_text_shows_bits(self)
        ensures
            shows(self.debug_text_spec(), field_text(", menu_input_1c_inactive: "@, bit_u16(self.0, 8))),
    {
        {
            lemma_shows_self(field_text(", menu_input_1c_inactive: "@, bit_u16(self.0, 8)));
            assert(shows(self.debug_fields_0(), field_text(", menu_input_1c_inactive: "@, bit_u16(self.0, 8))));
            lemma_shows_left("PopupMoveMapFlags { .0: "@ + decimal_digits(self.0 as nat), self.debug_fields_0(), field_text(", menu_input_1c_inactive: "@, bit_u16(self.0, 8)));
            lemma_shows_right("PopupMoveMapFlags { .0: "@ + decimal_digits(self.0 as nat) + self.debug_fields_0(), " }"@, field_text(", menu_input_1c_inactive: "@, bit_u16(self.0, 8)));
        }
    }
}

pub struct CSPopupMenu {
    pub vftable: usize,
    pub menu_man: NativePtr<CSMenuManImp>,
    /// Reference-counted menu job slot cleared by the constructor and released by the destructor.
    pub current_top_menu_job: Option<NativePtr<MenuJobBase>>,
    /// Deferred HUD-restore job for popup cleanup.
    ///
    /// The HUD-restore helper builds a two-frame wait job whose lambda sets the HUD
    /// state back to `Default` and clears [`Self::hud_restore_pending`], then
    /// assigns that job into `CSPopupMenu+0xb8`.
    pub restore_hud_job: Option<NativePtr<MenuJobBase>>,
    /// Active job cloned from the native popup input queue at `+0x10`.
    ///
    /// `CSPopupMenu::Update` waits for this slot to be empty, clones from the
    /// popup input queue at `+0x10`, and assigns the clone here at
    /// `CSPopupMenu+0xc0`.
    pub popup_input_queue_job: Option<NativePtr<MenuJobBase>>,
    /// Active tutorial popup job.
    ///
    /// The tutorial-popup helper looks up `TutorialParam`, builds a tutorial popup/menu
    /// job chain, and assigns the resulting job into this slot at
    /// `CSPopupMenu+0xc8`.
    pub tutorial_popup_job: Option<NativePtr<MenuJobBase>>,
    /// Move-map popup/input flags updated from `MoveMapStep`.
    ///
    /// The move-map popup update sets [`PopupMoveMapFlags::menu_input_1c_inactive`] after
    /// checking menu input slot `0x1c` against `CSMenuManImp` input state.
    pub move_map_flags: PopupMoveMapFlags,
    /// Set from `MoveMapStep` while a move-map popup
    /// transition has work pending.
    pub move_map_popup_pending: bool,
    /// Native `std::function` input handler invoked by popup-menu input dispatch.
    pub input_handler: PopupMenuInputHandler,
    /// Native popup-menu input counter payload.
    pub input_data: InputData,
    pub inline_slot_170: PopupMenuInlineSlot,
    /// Current talk id associated with the popup menu, or `-1` when absent.
    pub current_talk_id: i32,
    pub input_buffer_184: PopupMenuInputBuffer,
    pub popup_queue: MenuStringDeque,
    /// Popup-list runtime flag initialized after deque construction.
    ///
    /// The constructor seeds this to `1`, then immediately overwrites it with
    /// `thunk_FUN_14557256a()`. No non-constructor consumer has been recovered
    /// yet, so the exact feature gate remains unresolved.
    pub popup_list_runtime_flag: bool,
    pub menu_string_deque_1e8: MenuStringDeque,
    pub menu_string_deque_218: MenuStringDeque,
    pub world_map_tile_back_reader: Option<NativePtr<WorldMapTileBackReader>>,
    /// Native `CS::WorldMapViewModel` pointer allocated by the constructor.
    pub world_map_view_model: Option<NativePtr<WorldMapViewModel>>,
    /// Native view-model pointer; RTTI shows `CS::GestureEquipViewModel` derives [`MenuViewModel`].
    pub gesture_equip_view_model: Option<NativePtr<MenuViewModel>>,
    /// Native `CS::MultiPlayViewModel` pointer allocated by the constructor.
    pub multi_play_view_model: Option<NativePtr<MultiPlayViewModel>>,
    /// Native view-model pointer; RTTI shows `CS::KeywordViewModel` derives [`MenuViewModel`].
    pub keyword_view_model: Option<NativePtr<MenuViewModel>>,
    /// Native view-model pointer; RTTI shows `CS::NetworkViewModel` derives [`MenuViewModel`].
    pub network_view_model: Option<NativePtr<MenuViewModel>>,
    /// Native view-model pointer; RTTI shows `CS::MainTopViewModel` derives [`MenuViewModel`].
    pub main_top_view_model: Option<NativePtr<MenuViewModel>>,
    /// Native view-model pointer; RTTI shows `CS::CSTutorialViewModel` derives [`MenuViewModel`].
    pub tutorial_view_model: Option<NativePtr<MenuViewModel>>,
    /// Native view-model pointer; RTTI shows `CS::MatchingViewModel` derives [`MenuViewModel`].
    pub matching_view_model: Option<NativePtr<MenuViewModel>>,
    pub show_failed_to_save: bool,
    /// Deferred failed-save popup job.
    ///
    /// The failed-save popup helper is gated by [`Self::show_failed_to_save`], creates a
    /// popup/menu job and assigns it into this slot at
    /// `CSPopupMenu+0x298` once popup conditions allow it to run.
    pub failed_save_popup_job: Option<NativePtr<MenuJobBase>>,
    /// Success-result menu job cached by popup-menu tail handling.
    ///
    /// The success-result popup helper constructs a `MenuJobResult::Success` job and assigns it
    /// into this slot at `CSPopupMenu+0x2a0`.
    pub success_result_job: Option<NativePtr<MenuJobBase>>,
    /// Pending popup job produced by guarded popup-input scheduling.
    ///
    /// The popup-input queue helper stores a cloned job here at `CSPopupMenu+0x2f8` after
    /// the popup-input readiness helper says popup input can proceed and bumps [`Self::input_data`]'s
    /// generation counter. If this slot is already occupied, that helper clones
    /// the existing job instead of creating a replacement.
    pub pending_popup_input_job: Option<NativePtr<MenuJobBase>>,
    pub fade_state: PopupMenuFadeState,
    /// Set while popup cleanup has a deferred HUD restore pending.
    ///
    /// The `restore_hud_job` lambda restores the HUD state
    /// to `Default` and clears this byte.
    pub hud_restore_pending: bool,
    pub _pad_309: u8,
    /// Suppresses popup-menu input dispatch while set.
    ///
    /// The popup input-dispatch helper returns immediately when this byte is nonzero instead of
    /// forwarding input through the normal popup-menu path.
    pub input_dispatch_suppressed: bool,
    /// Native popup tail state word, defaulting to `1`.
    ///
    /// No non-constructor producer/consumer has been recovered yet, so this
    /// remains raw state storage rather than an enum.
    pub popup_tail_state_word_30c: u32,
    /// Native popup tail state flag; no non-constructor read/write has been recovered yet.
    pub popup_tail_state_flag_310: bool,
    /// Native popup tail index, defaulting to `-1`; no complete consumer has been recovered yet.
    pub popup_tail_index_314: i32,
    /// World-map dialog currently attached to the popup's world-map view model.
    ///
    /// Source of layout: the world-map dialog creation path passes this pointer to the newly
    /// allocated [`WorldMapViewModel`] when opening the world map. The
    /// `WorldMapDialogBase` teardown path later calls the world-map dialog destructor with the
    /// same dialog pointer, clearing the view model's back-reference if it
    /// still matches.
    pub world_map_dialog: Option<NativePtr<WorldMapDialogBase>>,
}

/// Native `CS::WorldMapDialogBase` object attached to [`WorldMapViewModel`].
///
/// Only the vtable header is modeled here because `CSPopupMenu` stores this as
/// an opaque dialog back-reference and does not own or inspect the object body.
pub struct WorldMapDialogBase {
    pub vftable: usize,
}

/// Native `std::function` storage for popup-menu input handling.
///
/// Source of layout: Ghidra identifies `CSPopupMenu+0x128` as `std::function`
/// and destructor code invokes the stored callable destructor when the impl
/// pointer is non-null.
pub struct PopupMenuInputHandler {
    pub inline_storage: [u8; 0x38],
    /// Active std::function callable implementation, or null when empty.
    ///
    /// The pending-popup-input cleanup path tests this pointer and invokes the callable destructor
    /// through its vtable before clearing it.
    pub impl_ptr: Option<NativePtr<PopupMenuInputHandlerCallable>>,
}

pub struct PopupMenuInputHandlerCallable {
    pub vftable: usize,
}

/// Native popup fade configuration initialized at `CSPopupMenu+0x300`.
///
/// The constructor writes both floats together (`0.5` and `0.22...`) as popup
/// fade state; no narrower producer/consumer has been recovered yet, so the
/// values are kept as one by-value record instead of unrelated constructor-only
/// floats.
pub struct PopupMenuFadeState {
    /// Stored as the bit pattern of a native `f32`.
    pub primary_value: u32,
    /// Stored as the bit pattern of a native `f32`.
    pub secondary_value: u32,
}

pub struct InputData {
    pub count: u64,
}

pub struct PopupMenuTextState {
    /// Static UTF-16 string pointer copied together with the allocated string payload.
    pub static_string: Option<NativePtr<u16>>,
}

pub struct PopupMenuInlineSlot {
    /// Heap-owned vector of inline popup entries.
    ///
    /// Source of layout: the inline-entry append helper lazily allocates a `0x20`-byte vector
    /// object here from `GLOBAL_IngameHeapAllocator`, appends 16-byte entries,
    /// deduplicates by entry `dedupe_key`, and sort helpers compare
    /// [`PopupMenuInlineEntry::sort_key`]. The inline-entry vector cleanup helper destroys and
    /// deallocates this vector through the stored allocator.
    pub entries: Option<NativePtr<PopupMenuInlineEntryVector>>,
    /// Inline-entry selection/index cache.
    ///
    /// The constructor initializes this to `-1`, and the inline-entry append helper resets it
    /// to `-1` before lazily allocating/appending/deduplicating inline entries.
    /// No complete consumer has been recovered yet, so this remains a raw index
    /// instead of a closed enum.
    pub index: i32,
}

pub struct PopupMenuInlineEntryVector {
    pub begin: Option<NativePtr<PopupMenuInlineEntry>>,
    pub end: Option<NativePtr<PopupMenuInlineEntry>>,
    pub capacity_end: Option<NativePtr<PopupMenuInlineEntry>>,
}

pub struct PopupMenuInlineEntry {
    /// Popup/dialog text id copied into the inline entry.
    pub message_id: u32,
    /// Key used by the inline-entry append helper to avoid adding duplicate inline entries.
    pub dedupe_key: u32,
    /// Key used by the inline-entry sort/lower-bound helpers.
    pub sort_key: i32,
    /// Native argument payload copied with the inline entry.
    pub payload: u32,
}

/// Text table selector used by popup-input message ids.
///
/// The native popup text-source helper handles values `0..=7` with a `switch`, but its
/// default arm constructs an empty `MenuString` instead of rejecting invalid
/// selectors. Store the raw byte in memory and use this enum for checked views.
#[derive(Clone, Copy, Debug, PartialEq, Eq, Hash, Structural)]
pub enum PopupMenuTextSource {
    MsgRepository,
    ActionButton,
    EventTextForTalk,
    EventTextForMap,
    GoodsDialog,
    MenuTextEntry,
    Dialogues,
    NetworkMessage,
    Unknown(u8),
}


/// The checked view of a raw text-source byte: `0..=7` name a table, any
/// other byte is kept as `Unknown`.
pub open spec fn text_source_of(raw: u8) -> PopupMenuTextSource {
    if raw == 0 {
        PopupMenuTextSource::MsgRepository
    } else if raw == 1 {
        PopupMenuTextSource::ActionButton
    } else if raw == 2 {
        PopupMenuTextSource::EventTextForTalk
    } else if raw == 3 {
        PopupMenuTextSource::EventTextForMap
    } else if raw == 4 {
        PopupMenuTextSource::GoodsDialog
    } else if raw == 5 {
        PopupMenuTextSource::MenuTextEntry
    } else if raw == 6 {
        PopupMenuTextSource::Dialogues
    } else if raw == 7 {
        PopupMenuTextSource::NetworkMessage
    } else {
        PopupMenuTextSource::Unknown(raw)
    }
}

impl PopupMenuTextSource {
    /// The raw byte this selector stands for.
    pub open spec fn raw_byte(self) -> u8 {
        match self {
            PopupMenuTextSource::MsgRepository => 0,
            PopupMenuTextSource::ActionButton => 1,
            PopupMenuTextSource::EventTextForTalk => 2,
            PopupMenuTextSource::EventTextForMap => 3,
            PopupMenuTextSource::GoodsDialog => 4,
            PopupMenuTextSource::MenuTextEntry => 5,
            PopupMenuTextSource::Dialogues => 6,
            PopupMenuTextSource::NetworkMessage => 7,
            PopupMenuTextSource::Unknown(value) => value,
        }
    }

    /// A selector as `from_raw` produces it: `Unknown` only carries bytes
    /// that name no table.
    pub open spec fn is_canonical(self) -> bool {
        self matches PopupMenuTextSource::Unknown(value) ==> value >= 8
    }

    pub fn from_raw(raw: u8) -> (r: Self)
        ensures
            r == text_source_of(raw),
    {
        match raw {
            0 => PopupMenuTextSource::MsgRepository,
            1 => PopupMenuTextSource::ActionButton,
            2 => PopupMenuTextSource::EventTextForTalk,
            3 => PopupMenuTextSource::EventTextForMap,
            4 => PopupMenuTextSource::GoodsDialog,
            5 => PopupMenuTextSource::MenuTextEntry,
            6 => PopupMenuTextSource::Dialogues,
            7 => PopupMenuTextSource::NetworkMessage,
            value => PopupMenuTextSource::Unknown(value),
        }
    }

    pub fn raw(self) -> (r: u8)
        ensures
            r == self.raw_byte(),
    {
        match self {
            PopupMenuTextSource::MsgRepository => 0,
            PopupMenuTextSource::ActionButton => 1,
            PopupMenuTextSource::EventTextForTalk => 2,
            PopupMenuTextSource::EventTextForMap => 3,
            PopupMenuTextSource::GoodsDialog => 4,
            PopupMenuTextSource::MenuTextEntry => 5,
            PopupMenuTextSource::Dialogues => 6,
            PopupMenuTextSource::NetworkMessage => 7,
            PopupMenuTextSource::Unknown(value) => value,
        }
    }

    /// The named text tables in the order they are declared.
    pub open spec fn declared_tables() -> Seq<Self> {
        seq![
            PopupMenuTextSource::MsgRepository,
            PopupMenuTextSource::ActionButton,
            PopupMenuTextSource::EventTextForTalk,
            PopupMenuTextSource::EventTextForMap,
            PopupMenuTextSource::GoodsDialog,
            PopupMenuTextSource::MenuTextEntry,
            PopupMenuTextSource::Dialogues,
            PopupMenuTextSource::NetworkMessage,
        ]
    }

    /// Raw bytes `0..=7` select the named tables in declaration order: the
    /// table declared at position `i` is selected by byte `i` and renders back
    /// as `i`; every other byte selects no named table.
    pub proof fn lemma_tables_follow_declaration_order(i: int, raw: u8)
        ensures
            0 <= i < 8 ==> text_source_of(i as u8) == Self::declared_tables()[i]
                && Self::declared_tables()[i].raw_byte() == i,
            raw >= 8 ==> text_source_of(raw) == PopupMenuTextSource::Unknown(raw),
    {
        if i == 0 {
            assert(Self::declared_tables()[0] == PopupMenuTextSource::MsgRepository);
        } else if i == 1 {
            assert(Self::declared_tables()[1] == PopupMenuTextSource::ActionButton);
        } else if i == 2 {
            assert(Self::declared_tables()[2] == PopupMenuTextSource::EventTextForTalk);
        } else if i == 3 {
            assert(Self::declared_tables()[3] == PopupMenuTextSource::EventTextForMap);
        } else if i == 4 {
            assert(Self::declared_tables()[4] == PopupMenuTextSource::GoodsDialog);
        } else if i == 5 {
            assert(Self::declared_tables()[5] == PopupMenuTextSource::MenuTextEntry);
        } else if i == 6 {
            assert(Self::declared_tables()[6] == PopupMenuTextSource::Dialogues);
        } else if i == 7 {
            assert(Self::declared_tables()[7] == PopupMenuTextSource::NetworkMessage);
        }
    }

    /// The checked view keeps every byte, unknown ones included: converting a
    /// byte to a selector and back gives the byte, and the selector is
    /// canonical.
    pub proof fn lemma_raw_of_from_raw(raw: u8)
        ensures
            text_source_of(raw).raw_byte() == raw,
            text_source_of(raw).is_canonical(),
    {
    }

    /// A canonical selector survives a trip through its raw byte.
    pub proof fn lemma_from_raw_of_raw(source: PopupMenuTextSource)
        requires
            source.is_canonical(),
        ensures
            text_source_of(source.raw_byte()) == source,
    {
    }

    /// Distinct bytes give distinct selectors.
    pub proof fn lemma_from_raw_injective(a: u8, b: u8)
        ensures
            text_source_of(a) == text_source_of(b) ==> a == b,
    {
        Self::lemma_raw_of_from_raw(a);
        Self::lemma_raw_of_from_raw(b);
    }
}


pub struct PopupMenuInputBuffer {
    /// Main popup/dialog text id copied by the popup-input constructor helper.
    pub prompt_message_id: u32,
    /// First choice text id; the popup builder reads this when the popup shape has choices.
    pub first_choice_message_id: u32,
    /// Second choice text id; the popup builder reads this for two-choice popup shapes.
    pub second_choice_message_id: u32,
    pub _message_pad_0c: u32,
    /// Raw text source used for [`Self::prompt_message_id`].
    ///
    /// The native popup text-source helper switches on this byte to select the FMG/text
    /// table; use [`Self::prompt_text_source`] for a checked view that preserves
    /// unknown/default-arm values.
    pub prompt_text_source: u8,
    /// Raw text source used by both choice message ids.
    ///
    /// Use [`Self::choice_text_source`] for a checked view that preserves
    /// unknown/default-arm values.
    pub choice_text_source: u8,
    pub _text_source_pad_12: u8,
    /// First choice is present but disabled by menu/world-state checks.
    pub first_choice_disabled: bool,
    /// Second choice is present but disabled by menu/world-state checks.
    pub second_choice_disabled: bool,
    pub _choice_flag_pad_15: [u8; 0x3],
    /// Constructor-cleared popup-input word; no narrower static meaning has been recovered yet.
    pub popup_input_word_18: u32,
    /// Result index written by popup input helpers (`-1` while unset, `0` on cancel).
    pub selection_result_index: i32,
    /// Cancel-result value cleared by one cancel path and set to `-1` by another cancel helper.
    pub cancel_result_value: i32,
    pub _cancel_result_pad_24: u32,
}

impl PopupMenuInputBuffer {
    /// Checked view of [`Self::prompt_text_source`].
    pub fn prompt_text_source(&self) -> (r: PopupMenuTextSource)
        ensures
            r == text_source_of(self.prompt_text_source),
            r.raw_byte() == self.prompt_text_source,
    {
        PopupMenuTextSource::from_raw(self.prompt_text_source)
    }

    /// Checked view of [`Self::choice_text_source`].
    pub fn choice_text_source(&self) -> (r: PopupMenuTextSource)
        ensures
            r == text_source_of(self.choice_text_source),
            r.raw_byte() == self.choice_text_source,
    {
        PopupMenuTextSource::from_raw(self.choice_text_source)
    }
}


/// Native `deque<MenuString>` storage used by [`CSPopupMenu`].
///
/// Source of layout: `CSPopupMenu` constructs three deque instances at
/// `+0x1b0`, `+0x1e8`, and `+0x218`, stores `GLOBAL_MenuHeapAllocator`,
/// initializes the proxy/sentinel block, and maintains capacity/offset/length
/// qwords.
pub struct MenuStringDeque {
    pub proxy: Option<NativePtr<MenuStringDequeProxy>>,
    pub map_capacity: usize,
    pub map_offset: usize,
    pub len: usize,
}

pub struct MenuStringDequeProxy {
    pub owning_deque_proxy_slot: Option<NativePtr<Option<NativePtr<MenuStringDequeProxy>>>>,
    pub next: Option<NativePtr<MenuStringDequeProxy>>,
}

pub struct CSPlayerMenuCtrl {
    pub vftable: usize,
    /// Phase for item/magic open-menu confirmation flow.
    ///
    /// Selection helpers set this to `1`; popup processing dispatches phases
    /// `1`, `2`, and `5`, and confirmation handlers promote successful goods
    /// and magic flows to phases `3`/`4` based on the active selection kind.
    pub item_use_menu_phase: i32,
    /// Stage returned to Lua event warp routing for multiplayer bonfire warps.
    ///
    /// The player-menu virtual stage accessor returns this field; `CSLuaEventManImp::WarpToBonfireByStage`
    /// compares it with stage `7` while deciding whether to advance to the next
    /// bonfire-warp stage or keep the kick/warp branch active.
    pub bonfire_warp_stage: i32,
    pub chr_menu_flags: CSChrMenuFlags,
    /// Constructor-initialized menu-control index, defaulting to `-1`.
    pub selected_slot_index: i32,
    /// Whether the selected menu entry belongs to a sign-puddle interaction.
    pub is_sign_puddle: bool,
    /// Native multiplayer-region flag for break-in menu context.
    pub is_break_in_multi_region: u8,
    pub _pad_03e: [u8; 0x2],
    /// Kick-select dialog phase used while confirming multiplayer kicks.
    ///
    /// The kick-select menu helper sets this to `2` after `ShowKickSelectMenu`, polls the
    /// dialog while it remains `2`, and uses `1` as the wait/blocked phase.
    pub kick_select_menu_phase: u32,
    /// Set when `ShowKickSelectMenu` is opened for the kick-select flow.
    pub kick_select_menu_opened: bool,
    pub _pad_045: [u8; 0x3],
}

pub struct CSChrMenuFlags {
    pub vftable: usize,
    pub flags: ChrMenuFlags,
}

/// The derived `Debug` prints the tuple form; [`Self::debug_text`] gives the
/// bitfield rendering, the raw word followed by every named bit.
#[derive(Clone, Copy, Debug, PartialEq, Eq, Hash, Structural)]
pub struct ChrMenuFlags(pub u32);

impl ChrMenuFlags {
    /// Set by TAE Event 0 (action 54 DISABLE_START_INPUTS)
    /// Controls whether the player can open the pause menu
    /// (Equipment, Crafting, Status, Messages, System, Multiplayer, Pouch, Gestures)
    pub fn pause_menu_state(&self) -> (r: bool)
        ensures
            r == bit_u32(self.0, 3),
    {
        (self.0 >> 3u32) & 1u32 == 1u32
    }

    /// Sets or clears the bit read by [`Self::pause_menu_state`]; every other bit is kept.
    pub fn set_pause_menu_state(&mut self, value: bool)
        ensures
            final(self).0 == with_bit_u32(old(self).0, 3, value),
    {
        if value {
            self.0 = self.0 | (1u32 << 3u32);
        } else {
            self.0 = self.0 & !(1u32 << 3u32);
        }
    }

    /// Named bits 0 onward of the debug rendering, each as `, name: bool`.
    pub open spec fn debug_fields_0(self) -> Seq<char> {
        field_text(", pause_menu_state: "@, bit_u32(self.0, 3))
    }

    fn append_debug_fields_0(&self, out: &mut String)
        ensures
            final(out)@ == old(out)@ + self.debug_fields_0(),
    {
        let ghost start = out@;
        append_field(out, ", pause_menu_state: ", self.pause_menu_state());
        proof {
            assert(out@ =~= start + self.debug_fields_0());
        }
    }

    /// The word followed by every named bit, as `Name { .0: word, bit: bool, .. }`.
    pub open spec fn debug_text_spec(self) -> Seq<char> {
        "ChrMenuFlags { .0: "@ + decimal_digits(self.0 as nat) + self.debug_fields_0() + " }"@
    }

    /// The debug rendering: the raw word, then each named bit in declaration
    /// order, as `ChrMenuFlags { .0: <word>, <bit>: <bool>, .. }`.
    pub fn debug_text(&self) -> (r: String)
        ensures
            r@ == self.debug_text_spec(),
    {
        let mut out = String::new();
        append_literal(&mut out, "ChrMenuFlags { .0: ");
        append_decimal(&mut out, self.0 as u64);
        self.append_debug_fields_0(&mut out);
        append_literal(&mut out, " }");
        out
    }

    /// In the debug text, each name is followed by the value of its getter:
    /// `, name: ` and then `true` exactly when that name's bit is set.
    pub proof fn lemma_debug_text_shows_bits(self)
        ensures
            shows(self.debug_text_spec(), field_text(", pause_menu_state: "@, bit_u32(self.0, 3))),
    {
        {
            lemma_shows_self(field_text(", pause_menu_state: "@, bit_u32(self.0, 3)));
            assert(shows(self.debug_fields_0(), field_text(", pause_menu_state: "@, bit_u32(self.0, 3))));
            lemma_shows_left("ChrMenuFlags { .0: "@ + decimal_digits(self.0 as nat), self.debug_fields_0(), field_text(", pause_menu_state: "@, bit_u32(self.0, 3)));
            lemma_shows_right("ChrMenuFlags { .0: "@ + decimal_digits(self.0 as nat) + self.debug_fields_0(), " }"@, field_text(", pause_menu_state: "@, bit_u32(self.0, 3)));
        }
    }
}

pub struct BackScreenData {
    pub vftable: usize,
    /// Constructor-initialized back-screen state byte.
    pub active: bool,
}

pub struct LoadingScreenData {
    pub vftable: usize,
    /// Constructor-initialized loading-screen state byte.
    pub active: bool,
    /// Constructor-initialized transition state word.
    pub transition_state: u32,
    /// Constructor-initialized transition flags.
    pub transition_flags: u16,
    /// Current loading screen entry, or `-1` when no entry is selected.
    pub loading_screen_id: i32,
    /// Initial fade/sample value used by the loading-screen interpolation helper.
    /// Stored as the bit pattern of a native `f32`.
    pub fade_start: u32,
    /// Target fade/sample value used by the loading-screen interpolation helper.
    /// Stored as the bit pattern of a native `f32`.
    pub fade_end: u32,
    /// Interpolation duration; default constructor value is `1.0`.
    /// Stored as the bit pattern of a native `f32`.
    pub fade_duration: u32,
    pub reserved_024: u32,
}

pub struct FeSystemAnnounceViewModel {
    pub base: MenuViewModel,
    pub message_queue: FeSystemAnnounceViewModelMessageQueue,
}

/// Native announcement entry displayed by [`FeSystemAnnounceViewModel`].
///
/// Source of layout: Ghidra structure `CS::AnnounceMessage`;
/// `CS::FeSystemAnnounceViewModel::FeSystemAnnounceViewModel` initializes a
/// queue whose map stores pointers to these messages.
pub struct AnnounceMessage {
    pub is_active: bool,
    pub _pad_001: [u8; 0x7],
    /// Native qword carried with the announcement text; exact role is still private.
    pub message_key: u64,
}

/// Native queue/map backing system-announcement messages.
///
/// Source of layout: Ghidra structure
/// `CS::FeSystemAnnounceViewModelMessageQueue`; the
/// `CS::FeSystemAnnounceViewModel` constructor stores `GLOBAL_MenuHeapAllocator`,
/// allocates the proxy, and zeroes the map/capacity/offset/size fields before
/// linking the proxy back to this queue.
pub struct FeSystemAnnounceViewModelMessageQueue {
    pub proxy: Option<NativePtr<FeSystemAnnounceMessageQueueProxy>>,
    pub map_capacity: usize,
    pub map_offset: usize,
    pub len: usize,
}

pub struct FeSystemAnnounceMessageQueueProxy {
    pub owning_queue_proxy_slot: Option<NativePtr<Option<NativePtr<FeSystemAnnounceMessageQueueProxy>>>>,
    pub next: Option<NativePtr<FeSystemAnnounceMessageQueueProxy>>,
}


/// Native `CS::MenuJobBase` header; menu jobs are held by pointer only, so
/// only the vtable prefix is modeled.
pub struct MenuJobBase {
    pub vftable: usize,
}

/// Native `FD4::FD4FileCap` header; file caps are held by pointer only, so
/// only the vtable prefix is modeled.
pub struct FD4FileCap {
    pub vftable: usize,
}

} // verus!
