//! WRAM addresses of the fields that the typed views read and write.

use vstd::prelude::*;

verus! {

pub const MAIN_MODULE: usize = 0x0010;
pub const SUBMODULE: usize = 0x0011;
pub const SUBSUBMODULE: usize = 0x00b0;
pub const INIDISP_COPY: usize = 0x0013;
pub const NMI_LOAD_BG_FROM_VRAM: usize = 0x0014;
pub const NMI_SUBROUTINE_INDEX: usize = 0x0017;
pub const FRAME_COUNTER: usize = 0x001a;
pub const FLAG_UPDATE_CGRAM_IN_NMI: usize = 0x0015;
pub const FLAG_UPDATE_HUD_IN_NMI: usize = 0x0016;
pub const NMI_COPY_PACKETS_FLAG: usize = 0x0018;
pub const TM_COPY: usize = 0x001c;
pub const TS_COPY: usize = 0x001d;
pub const BGMODE_COPY: usize = 0x0094;
pub const MOSAIC_COPY: usize = 0x0095;
pub const W12SEL_COPY: usize = 0x0096;
pub const W34SEL_COPY: usize = 0x0097;
pub const WOBJSEL_COPY: usize = 0x0098;
pub const HDMAEN_COPY: usize = 0x009b;
pub const NMI_BOOLEAN: usize = 0x0012;
pub const NMI_UPDATE_TILEMAP_DST: usize = 0x0019;
pub const TMW_COPY: usize = 0x001e;
pub const TSW_COPY: usize = 0x001f;
pub const NMI_THREAD_ACTIVE: usize = 0x012a;
pub const NMI_LOAD_TARGET_ADDR: usize = 0x0116;
pub const NMI_UPDATE_TILEMAP_SRC: usize = 0x0118;
pub const ANIMATED_TILE_VRAM_ADDR: usize = 0x0134;
pub const NMI_DISABLE_CORE_UPDATES: usize = 0x0710;
pub const LOAD_CHR_HALFSLOT_EVEN_ODD: usize = 0x0aaa;
pub const MOSAIC_TARGET_LEVEL: usize = 0x0c00b;
pub const MUSIC_CONTROL: usize = 0x012c;
pub const SOUND_EFFECT_AMBIENT: usize = 0x012d;
pub const SOUND_EFFECT_1: usize = 0x012e;
pub const SOUND_EFFECT_2: usize = 0x012f;
pub const CURRENT_MUSIC_CONTROL: usize = 0x0130;
pub const SOUND_EFFECT_AMBIENT_LAST: usize = 0x0131;
pub const QUEUED_MUSIC_CONTROL: usize = 0x0132;
pub const LAST_MUSIC_CONTROL: usize = 0x0133;
pub const RAM_APUI00: usize = 0x0648;
pub const ANIMATED_TILE_DATA_SRC: usize = 0x0adc;
pub const FLAG_TRAVEL_BIRD: usize = 0x0af4;
pub const HUD_TILE_INDICES_BUFFER: usize = 0x0c700;
pub const NMI_FLAG_UPDATE_POLYHEDRAL: usize = 0x1f0c;
pub const POLY_THREAD_STACK: usize = 0x1f0a;
pub const IRQ_FLAG: usize = 0x128;
pub const RUN_MAIN_THREAD: u8 = 1;
pub const RUN_POLY_THREAD: u8 = 2;
pub const ATTRACT_STATE: usize = 0x0022;
pub const ATTRACT_SEQUENCE: usize = 0x0023;
pub const ATTRACT_SCENE_TIMER: usize = 0x0025;
pub const ATTRACT_X_BASE: usize = 0x0028;
pub const ATTRACT_Y_BASE: usize = 0x0029;
pub const ATTRACT_OAM_IDX: usize = 0x002a;
pub const ATTRACT_X_BASE_HI: usize = 0x0040;
pub const ATTRACT_MAIDEN_WARP_STEP: usize = 0x0051;
pub const ATTRACT_SCENE_SUBSTEP: usize = 0x0060;
pub const LINK_Y_COORD: usize = 0x0020;
pub const LINK_X_COORD: usize = 0x0022;
pub const LINK_Z_COORD: usize = 0x0024;
pub const LINK_LAST_DIRECTION: usize = 0x0026;
pub const LINK_ACTUAL_Y_VELOCITY: usize = 0x0027;
pub const LINK_ACTUAL_X_VELOCITY: usize = 0x0028;
pub const LINK_Z_VELOCITY: usize = 0x0029;
pub const LINK_Y_SUBPIXEL: usize = 0x002a;
pub const LINK_X_SUBPIXEL: usize = 0x002b;
pub const LINK_Z_SUBPIXEL: usize = 0x002c;
pub const LINK_FRAME_CHANGE_COUNTER: usize = 0x002d;
pub const LINK_Y_COORD_ORIGINAL: usize = 0x0032;
pub const LINK_ANIMATION_STEPS: usize = 0x002e;
pub const LINK_FACING: usize = 0x002f;
pub const LINK_Y_VELOCITY: usize = 0x0030;
pub const LINK_X_VELOCITY: usize = 0x0031;
pub const BUTTON_MASK_B_Y: usize = 0x003a;
pub const Y_BUTTON_ACTION_FLAGS: usize = 0x003b;
pub const BUTTON_B_FRAMES: usize = 0x003c;
pub const TILEMAP_LOCATION_CALC_MASK: usize = 0x00ec;
pub const JOYPAD1H_LAST: usize = 0x00f0;
pub const JOYPAD1L_LAST: usize = 0x00f2;
pub const JOYPAD1H_LAST2: usize = 0x00f8;
pub const JOYPAD1L_LAST2: usize = 0x00fa;
pub const FILTERED_JOYPAD_H: usize = 0x00f4;
pub const FILTERED_JOYPAD_L: usize = 0x00f6;
pub const LINK_DELAY_TIMER_SPIN_ATTACK: usize = 0x003d;
pub const LINK_Y_COORD_SAFE_RETURN_LO: usize = 0x003e;
pub const LINK_X_COORD_SAFE_RETURN_LO: usize = 0x003f;
pub const PLAYER_OAM_Y_OFFSET: usize = 0x0044;
pub const PLAYER_OAM_X_OFFSET: usize = 0x0045;
pub const LINK_INCAPACITATED_TIMER: usize = 0x0046;
pub const PLAYER_DEFENSE_FLAGS: usize = 0x0048;
pub const LINK_VISIBILITY_STATUS: usize = 0x004b;
pub const LINK_AUXILIARY_STATE: usize = 0x004d;
pub const LINK_CANT_CHANGE_DIRECTION: usize = 0x0050;
pub const LINK_CAPE_MODE: usize = 0x0055;
pub const LINK_IS_BUNNY: usize = 0x0056;
pub const TILEDETECT_PIT_TILE: usize = 0x0059;
pub const PLAYER_PIT_DATA_INDEX: usize = 0x005a;
pub const LINK_SPRITE_OAM_STATE_TIMER: usize = 0x005c;
pub const PLAYER_NEAR_PIT_STATE: usize = 0x005b;
pub const LINK_SPEED_SETTING: usize = 0x005e;
pub const LINK_HANDLER_STATE: usize = 0x005d;
pub const LINK_LAST_DIRECTION_MOVED_TOWARDS: usize = 0x0066;
pub const LINK_DIRECTION: usize = 0x0067;
pub const LINK_Y_PAGE_MOVEMENT_DELTA: usize = 0x0068;
pub const LINK_X_PAGE_MOVEMENT_DELTA: usize = 0x0069;
pub const LINK_MOVING_AGAINST_DIAG_TILE: usize = 0x006b;
pub const IS_STANDING_IN_DOORWAY: usize = 0x006c;
pub const TILEDETECT_DIAG_STATE: usize = 0x006e;
pub const INDEX_OF_INTERACTING_TILE: usize = 0x0076;
pub const LINK_RECOIL_Z_VELOCITY_DUNGEON: usize = 0x00c7;
pub const LINK_DMA_GRAPHICS_INDEX: usize = 0x0100;
pub const LINK_DMA_LEFT_SPRITE_BANK_INDEX: usize = 0x0102;
pub const LINK_DMA_RIGHT_SPRITE_BANK_INDEX: usize = 0x0104;
pub const LINK_QUADRANT_X: usize = 0x00a9;
pub const LINK_QUADRANT_Y: usize = 0x00aa;
pub const LINK_SPIN_ATTACK_STEP_COUNTER: usize = 0x0079;
pub const LINK_TILE_BELOW: usize = 0x0114;
pub const TILEDETECT_STAIRCASE_CACHE: usize = 0x02c2;
pub const FLAG_CUSTOM_SPELL_ANIM_ACTIVE: usize = 0x0112;
pub const LINK_DEBUG_VALUE_1: usize = 0x020b;
pub const LINK_IS_BUNNY_MIRROR: usize = 0x02e0;
pub const LINK_IS_TRANSFORMING: usize = 0x02e1;
pub const LINK_BUNNY_TRANSFORM_TIMER: usize = 0x02e2;
pub const LINK_SWORD_DELAY_TIMER: usize = 0x02e3;
pub const FLAG_IS_LINK_IMMOBILIZED: usize = 0x02e4;
pub const LINK_POSE_FOR_ITEM: usize = 0x02da;
pub const LINK_TRIGGERED_BY_WHIRLPOOL_SPRITE: usize = 0x02db;
pub const ITEM_RECEIPT_METHOD: usize = 0x02e9;
pub const TILEDETECT_TILE_TYPE: usize = 0x02ea;
pub const TILEDETECT_CHEST: usize = 0x02e5;
pub const TILEDETECT_KEY_LOCK_GRAVESTONES: usize = 0x02e7;
pub const BITFIELD_SPIKE_CACTUS_TILES: usize = 0x02e8;
pub const TILEDETECT_SPIKE_FLOOR_AND_TILE_TRIGGERS: usize = 0x02ee;
pub const BITMASK_FOR_DASHABLE_TILES: usize = 0x02ef;
pub const FLAG_IS_ANCILLA_TO_PICK_UP: usize = 0x02ec;
pub const LINK_DMA_SWORD_GRAPHICS_INDEX: usize = 0x0107;
pub const LINK_DMA_SHIELD_GRAPHICS_INDEX: usize = 0x0108;
pub const LINK_DMA_STAGING_INDEX: usize = 0x0109;
pub const LINK_INCAPACITATED_CAMERA_TIMER: usize = 0x02c5;
pub const LINK_RECOIL_TIMER: usize = 0x02c6;
pub const LINK_Z_VELOCITY_COPY: usize = 0x02c7;
pub const LINK_RECEIVE_ITEM_INDEX: usize = 0x02d8;
pub const LINK_ITEM_HOLDING_TIMER: usize = 0x02d9;
pub const LINK_X_COORD_COPY: usize = 0x02dc;
pub const LINK_Y_COORD_COPY: usize = 0x02de;
pub const TAGALONG_EVENT_FLAGS: usize = 0x02f2;
pub const FLAG_IS_SPRITE_TO_PICK_UP_CACHED: usize = 0x02f4;
pub const LINK_DASH_COUNTER: usize = 0x02f1;
pub const PLAYER_ON_SOMARIA_PLATFORM: usize = 0x02f5;
pub const TILEDETECT_MISC_TILES: usize = 0x02f6;
pub const LINK_WANT_MAKE_NOISE_WHEN_DASHED: usize = 0x02f8;
pub const LINK_IS_NEAR_MOVEABLE_STATUE: usize = 0x02fa;
pub const PLAYER_HANDLER_TIMER: usize = 0x0300;
pub const LINK_ITEM_IN_HAND: usize = 0x0301;
pub const PIT_CORRECTION_ACTIVE_FLAG: usize = 0x0302;
pub const LINK_CURRENT_ITEM_Y: usize = 0x0303;
pub const EQ_SELECTED_ROD: usize = 0x0307;
pub const LINK_CURRENT_ITEM_ACTIVE: usize = 0x0304;
pub const LINK_STATE_BITS: usize = 0x0308;
pub const LINK_PICKING_THROW_STATE: usize = 0x0309;
pub const Y_BUTTON_ACTION_STEP: usize = 0x030a;
pub const Y_BUTTON_ACTION_TIMER: usize = 0x030b;
pub const LINK_FACING_MIRROR: usize = 0x0323;
pub const LINK_ITEM_ACTION_STEP_SCRATCH: usize = 0x030d;
pub const LINK_THROW_OAM_STATE_INDEX: usize = 0x030e;
pub const RELATED_TO_MOVING_FLOOR_Y: usize = 0x0318;
pub const RELATED_TO_MOVING_FLOOR_X: usize = 0x031a;
pub const TILEDETECT_MOVING_FLOOR_TILES: usize = 0x0320;
pub const FLAG_IS_SPRITE_TO_PICK_UP: usize = 0x0314;
pub const TILE_COLL_FLAG: usize = 0x0315;
pub const STATE_FOR_SPIN_ATTACK: usize = 0x031c;
pub const TURTLE_ROCK_OAM_PRIORITY_FLAG: usize = 0x034e;
pub const SORT_SPRITES_OFFSET_INTO_OAM_BUFFER: usize = 0x0352;
pub const VALUE_COMPUTED_FOR_PLAYER_OAM: usize = 0x0354;
pub const SECONDARY_WATER_GRASS_TIMER: usize = 0x0355;
pub const PRIMARY_WATER_GRASS_TIMER: usize = 0x0356;
pub const OAM_PRIORITY_VALUE_2: usize = 0x035d;
pub const STEP_COUNTER_FOR_SPIN_ATTACK: usize = 0x031d;
pub const LINK_SPIN_OFFSETS: usize = 0x031e;
pub const COUNTDOWN_FOR_BLINK: usize = 0x031f;
pub const LINK_MAYBE_SWIM_FASTER: usize = 0x032a;
pub const SWIM_PLAYER_DIRECTION_FLAGS: usize = 0x0340;
pub const TILEDETECT_ICY_FLOOR: usize = 0x0348;
pub const TILEDETECT_WATER_STAIRCASE: usize = 0x034c;
pub const LINK_IS_IN_DEEP_WATER: usize = 0x0345;
pub const LINK_FLAG_MOVING: usize = 0x034a;
pub const LINK_SWIM_HARD_STROKE: usize = 0x034f;
pub const LINK_DEBUG_VALUE_2: usize = 0x0350;
pub const DRAW_WATER_RIPPLES_OR_GRASS: usize = 0x0351;
pub const TILEDETECT_SHALLOW_WATER: usize = 0x0359;
pub const TILEDETECT_DESTRUCTION_AFTERMATH: usize = 0x035b;
pub const LINK_ELECTROCUTE_ON_TOUCH: usize = 0x0360;
pub const LINK_Z_VELOCITY_MIRROR: usize = 0x0362;
pub const LINK_Z_VELOCITY_COPY_MIRROR: usize = 0x0363;
pub const LINK_Z_COORD_MIRROR: usize = 0x0364;
pub const LINK_FAINT_ANIMATION_ACTIVE: usize = 0x036b;
pub const TILE_ACTION_INDEX: usize = 0x036c;
pub const TILEDETECT_READ_SOMETHING: usize = 0x0366;
pub const TILEDETECT_LEDGES_DOWN_LEFTRIGHT: usize = 0x036f;
pub const TILEDETECT_DIAGONAL_LEDGE_TILES: usize = 0x0370;
pub const LINK_GIVE_DAMAGE: usize = 0x0373;
pub const LINK_COUNTDOWN_FOR_DASH: usize = 0x0374;
pub const LINK_TIMER_JUMP_LEDGE: usize = 0x0375;
pub const LINK_GRABBING_WALL: usize = 0x0376;
pub const LINK_PULL_ACTION_STATE: usize = 0x0377;
pub const LINK_POSITION_MODE: usize = 0x037a;
pub const LINK_DISABLE_SPRITE_DAMAGE: usize = 0x037b;
pub const PLAYER_SLEEP_IN_BED_STATE: usize = 0x037c;
pub const LINK_POSE_DURING_OPENING: usize = 0x037d;
pub const RELATED_TO_HOOKSHOT: usize = 0x037e;
pub const PLAYER_RESET_ANCILLA_WORK_BYTE_24: usize = 0x03db;
pub const LINK_SOMETHING_WITH_HOOKSHOT: usize = 0x03e9;
pub const LINK_FORCE_HOLD_SWORD_UP: usize = 0x03ef;
pub const LINK_ON_CONVEYOR_BELT: usize = 0x03f3;
pub const LINK_TIMER_TEMPBUNNY: usize = 0x03f5;
pub const LINK_NEED_FOR_POOF_FOR_TRANSFORM: usize = 0x03f7;
pub const LINK_NEED_FOR_PULLFORRUPEES_SPRITE: usize = 0x03f8;
pub const BIT9_OF_XCOORD: usize = 0x03fa;
pub const IS_ARCHER_OR_SHOVEL_GAME: usize = 0x03fc;
pub const ABOUT_TO_JUMP_OFF_LEDGE: usize = 0x047a;
pub const LINK_Y_COORD_SAFE_RETURN_HI: usize = 0x0040;
pub const LINK_X_COORD_SAFE_RETURN_HI: usize = 0x0041;
pub const LINK_X_COORD_PREV: usize = 0x0fc2;
pub const LINK_Y_COORD_PREV: usize = 0x0fc4;
pub const LINK_Y_COORD_CACHED: usize = 0x0c184;
pub const LINK_X_COORD_CACHED: usize = 0x0c186;
pub const LINK_QUADRANT_X_CACHED: usize = 0x0c19e;
pub const LINK_QUADRANT_Y_CACHED: usize = 0x0c19f;
pub const LINK_Y_COORD_SPEXIT: usize = 0x0c108;
pub const LINK_X_COORD_SPEXIT: usize = 0x0c10a;
pub const LINK_Y_COORD_EXIT_OVERWORLD: usize = 0x0c148;
pub const LINK_X_COORD_EXIT_OVERWORLD: usize = 0x0c14a;
pub const LINK_FACING_CACHED: usize = 0x0c1a6;
pub const LINK_IS_ON_LOWER_LEVEL_CACHED: usize = 0x0c1a7;
pub const LINK_IS_ON_LOWER_LEVEL_MIRROR_CACHED: usize = 0x0c1a8;
pub const LINK_DIRECTION_MASK_A: usize = 0x0042;
pub const LINK_DIRECTION_MASK_B: usize = 0x0043;
pub const TILEDETECT_SLOPE_COLLISION_BITS: usize = 0x000c;
pub const TILEDETECT_COLLISION_BITS: usize = 0x000e;
pub const TILEDETECT_WHICH_Y_POS: usize = 0x0051;
pub const TILEDETECT_DIAGONAL_TILE: usize = 0x0038;
pub const TILEDETECT_STAIR_TILE: usize = 0x0058;
pub const TILEDETECT_BLOCK_FLAGS_LO: usize = 0x005f;
pub const TILEDETECT_DOOR_DIRECTION_FLAGS: usize = 0x0062;
pub const LINK_SPEED_MODIFIER: usize = 0x0057;
pub const LINK_NUM_ORTHOGONAL_DIRECTIONS: usize = 0x006a;
pub const LINK_IS_ON_LOWER_LEVEL: usize = 0x00ee;
pub const SWIMMING_COUNTDOWN: usize = 0x02cb;
pub const SWIM_STROKE_ANIM_STEP: usize = 0x02cc;
pub const LINK_TIMER_PUSH_GET_TIRED: usize = 0x0371;
pub const LINK_IS_RUNNING: usize = 0x0372;
pub const LINK_PREVENT_FROM_MOVING: usize = 0x0b7b;
pub const LINK_IS_ON_LOWER_LEVEL_MIRROR: usize = 0x0476;
pub const LINK_CURRENT_HEALTH: usize = 0x0f36d;
pub const LINK_ITEM_FLIPPERS: usize = 0x0f356;
pub const LINK_ITEM_MOON_PEARL: usize = 0x0f357;
pub const LINK_MAGIC_POWER: usize = 0x0f36e;
pub const LINK_MAGIC_CONSUMPTION: usize = 0x0f37b;
pub const LINK_EQUIPPED_ITEM: usize = 0x0f340;
pub const LINK_ITEM_BOW: usize = 0x0f340;
pub const LINK_BOTTLE_INFO: usize = 0x0f35c;
pub const LINK_ITEM_BOMBS: usize = 0x0f343;
pub const LINK_ITEM_BOTTLE_INDEX: usize = 0x0f34f;
pub const LINK_RUPEES_GOAL: usize = 0x0f360;
pub const LINK_RUPEES_ACTUAL: usize = 0x0f362;
pub const LINK_COMPASS: usize = 0x0f364;
pub const LINK_BIGKEY: usize = 0x0f366;
pub const LINK_DUNGEON_MAP: usize = 0x0f368;
pub const LINK_HEART_PIECES: usize = 0x0f36b;
pub const LINK_HEALTH_CAPACITY: usize = 0x0f36c;
pub const LINK_NUM_KEYS: usize = 0x0f36f;
pub const LINK_RUPEES_IN_POND: usize = 0x0f36a;
pub const LINK_BOMB_UPGRADES: usize = 0x0f370;
pub const LINK_ARROW_UPGRADES: usize = 0x0f371;
pub const LINK_HEARTS_FILLER: usize = 0x0f372;
pub const LINK_MAGIC_FILLER: usize = 0x0f373;
pub const LINK_WHICH_PENDANTS: usize = 0x0f374;
pub const LINK_BOMB_FILLER: usize = 0x0f375;
pub const LINK_ARROW_REFILL_COUNTER: usize = 0x0f376;
pub const LINK_NUM_ARROWS: usize = 0x0f377;
pub const LINK_ABILITY_FLAGS: usize = 0x0f379;
pub const LINK_HAS_CRYSTALS: usize = 0x0f37a;
pub const LINK_KEYS_EARNED_PER_DUNGEON: usize = 0x0f37c;
pub const DEATHS_PER_PALACE: usize = 0x0f3e7;
pub const PENDING_DEATH_SAVE_COUNTER: usize = 0x0f403;
pub const TOTAL_DEATH_SAVE_COUNTER: usize = 0x0f405;
pub const LINK_LOWLIFE_COUNTDOWN_TIMER_BEEP: usize = 0x04ca;
pub const SAVE_DUNG_INFO: usize = 0x0f000;
pub const MIRROR_WARP_TARGET_INDEX: usize = 0x06a0;
pub const MIRROR_WARP_TARGET_OFFSETS: usize = 0x06a2;
pub const MIRROR_WARP_VELOCITY_DELTAS: usize = 0x06a6;
pub const MIRROR_WARP_WAVE_OFFSET: usize = 0x06aa;
pub const MIRROR_WARP_DISPLACEMENT: usize = 0x06ac;
pub const MIRROR_WARP_SUBPIXEL: usize = 0x06ae;
pub const MIRROR_WARP_RESERVED: usize = 0x06b0;
pub const MIRROR_WARP_WAVE_LENGTH: usize = 0x06b2;
pub const MIRROR_WARP_SPACING_A: usize = 0x06b4;
pub const MIRROR_WARP_SPACING_B: usize = 0x06b6;
pub const MIRROR_WARP_LOAD_STEP_COUNTER: usize = 0x06ba;
pub const MIRROR_WARP_ANIMATION_COUNTER: usize = 0x06bb;
pub const CUR_PALACE_INDEX_X2: usize = 0x040c;
pub const HUD_CUR_ITEM: usize = 0x0202;
pub const HUD_CUR_ITEM_X: usize = 0x0656;
pub const HUD_CUR_ITEM_L: usize = 0x0657;
pub const HUD_CUR_ITEM_R: usize = 0x0658;
pub const HUD_POST_MESSAGE_REFRESH_FLAG: usize = 0x0204;
pub const SRAM_PROGRESS_INDICATOR: usize = 0x0f3c5;
pub const SRAM_PROGRESS_FLAGS: usize = 0x0f3c6;
pub const SRAM_PROGRESS_INDICATOR_3: usize = 0x0f3c9;
pub const SAVEGAME_MAP_ICONS_INDICATOR: usize = 0x0f3c7;
pub const SAVEGAME_IS_DARKWORLD: usize = 0x0f3ca;
pub const MODAL_PAUSE_FLAG: usize = 0x0fc1;
pub const FLAG_BLOCK_LINK_MENU: usize = 0x0ffc;
pub const DUNGEON_ROOM: usize = 0x00a0;
pub const PLAYER_IS_INDOORS: usize = 0x001b;
pub const OVERWORLD_MAP_STATE: usize = 0x0200;
pub const OVERWORLD_ENTRANCE_SEQUENCE_COUNTER: usize = 0x00c8;
pub const OVERWORLD_SCREEN_INDEX: usize = 0x008a;
pub const OVERWORLD_AREA_INDEX: usize = 0x040a;
pub const OVERWORLD_SCREEN_TRANS_DIR_BITS2: usize = 0x0416;
pub const OVERWORLD_SCREEN_TRANSITION: usize = 0x0418;
pub const OVERWORLD_TRANSITION_DIR: usize = 0x069c;
pub const OVERWORLD_EVENT_INFO: usize = 0x0f280;
pub const OVERLAY_INDEX: usize = 0x008c;
pub const DUNGEON_HEADER_TAG: usize = 0x00ae;
pub const DUNG_CUR_FLOOR: usize = 0x00a4;
pub const DUNG_HDR_COLLISION_2: usize = 0x00ad;
pub const DUNG_DRAW_WIDTH_INDICATOR: usize = 0x00b2;
pub const DUNG_DRAW_HEIGHT_INDICATOR: usize = 0x00b4;
pub const DUNGEON_HEADER_COLLISION_2_MIRROR: usize = 0x0428;
pub const DUNGEON_HEADER_HOLE_TELEPORTER_PLANE: usize = 0x063c;
pub const DUNGEON_HEADER_STAIRCASE_PLANE: usize = 0x063d;
pub const DUNGEON_HEADER_TRAVEL_DESTINATIONS: usize = 0x0c000;
pub const DUNG_LOAD_PTR_OFFS: usize = 0x00ba;
pub const DUNG_SAVEGAME_STATE_BITS: usize = 0x0402;
pub const BG1_MOVE_CALC_BUFFER: usize = 0x041c;
pub const DUNG_MISC_OBJS_INDEX: usize = 0x042c;
pub const DUNG_CUR_DOOR_IDX: usize = 0x0460;
pub const DUNG_FLAG_TRAPDOORS_DOWN: usize = 0x0468;
pub const DUNG_HDR_COLLISION: usize = 0x046c;
pub const DUNG_HDR_BG2_PROPERTIES: usize = 0x0414;
pub const CHANGEABLE_DUNGEON_OBJECT_INDEX: usize = 0x05fc;
pub const DUNGEON_ROOM_INDEX2: usize = 0x048e;
pub const DUNGEON_FLOOR_Y_VELOCITY: usize = 0x0310;
pub const DUNGEON_FLOOR_X_VELOCITY: usize = 0x0312;
pub const DUNG_OBJECT_TILEMAP_POS: usize = 0x0540;
pub const DUNG_OBJECT_POS_IN_OBJDATA: usize = 0x0520;
pub const DUNG_NUM_LIT_TORCHES: usize = 0x045a;
pub const DUNG_CUR_QUADRANT_UPLOAD: usize = 0x045c;
pub const DUNG_FLAG_STATECHANGE_WATERPUZZLE: usize = 0x0642;
pub const DUNG_DOOR_OPENED: usize = 0x0400;
pub const DUNG_DOOR_OPENED_INCL_ADJACENT: usize = 0x068c;
pub const DUNG_CUR_DOOR_POS_DUNGEON: usize = 0x068e;
pub const DOOR_ANIMATION_STEP_INDICATOR_DUNGEON: usize = 0x0690;
pub const DOOR_OPEN_CLOSED_COUNTER: usize = 0x0692;
pub const DUNG_INTER_STAIRCASES: usize = 0x06b0;
pub const DUNGEON_REPLACEMENT_TILE_STATE: usize = 0x0500;
pub const DUNG_DOOR_TILEMAP_ADDRESS: usize = 0x19a0;
pub const DUNG_BG2: usize = 0x2000;
pub const DUNG_BG1: usize = 0x4000;
pub const DUNG_WANT_LIGHTS_OUT: usize = 0x0c005;
pub const DUNG_WANT_LIGHTS_OUT_COPY: usize = 0x0c006;
pub const DUNG_CUR_FLOOR_CACHED: usize = 0x0c1aa;
pub const ATTRIBUTES_FOR_TILE_PLAYER: usize = 0x0fe00;
pub const MAP16_LOAD_SRC_OFF: usize = 0x0084;
pub const MAP16_LOAD_DST_OFF: usize = 0x0086;
pub const MAP16_LOAD_Y_UNIT: usize = 0x0088;
pub const BG1_X_SCROLL: usize = 0x00e0;
pub const BG2_X_SCROLL: usize = 0x00e2;
pub const BG1_Y_SCROLL: usize = 0x00e6;
pub const BG2_Y_SCROLL: usize = 0x00e8;
pub const BG1_X_OFFSET: usize = 0x011a;
pub const BG1_Y_OFFSET: usize = 0x011c;
pub const SAVED_MODULE_FOR_MENU: usize = 0x010c;
pub const OAM_CUR_PTR: usize = 0x0090;
pub const OAM_EXT_CUR_PTR: usize = 0x0092;
pub const CAMERA_Y: usize = 0x0618;
pub const CAMERA_X: usize = 0x061c;
pub const RNG_SEED: usize = 0x0fa1;
pub const SWIM_ACCELERATION_MODE: usize = 0x032b;
pub const SWIM_SPEED_ACTIVE_FLAG: usize = 0x032f;
pub const SWIM_MAX_SPEED: usize = 0x0334;
pub const SWIM_ACCELERATION_DIRECTION: usize = 0x0338;
pub const SWIM_ACCELERATION: usize = 0x033c;
pub const PUSHEDBLOCKS_X_HI: usize = 0x05e0;
pub const PUSHEDBLOCKS_X_LO: usize = 0x05e4;
pub const PUSHEDBLOCKS_TARGET: usize = 0x05e8;
pub const PUSHEDBLOCKS_Y_HI: usize = 0x05ec;
pub const PUSHEDBLOCKS_Y_LO: usize = 0x05f0;
pub const PUSHEDBLOCKS_SUBPIXEL: usize = 0x05f4;
pub const PUSHEDBLOCK_FACING_PLAYER: usize = 0x05f8;
pub const DOOR_DEBRIS_X: usize = 0x0728;
pub const DOOR_DEBRIS_Y: usize = 0x0732;
pub const DOOR_DEBRIS_DIRECTION: usize = 0x073c;
pub const TORCH_TIMERS: usize = 0x04f0;
pub const DUNGEON_TORCH_ATTR: usize = 0x0333;
pub const DUNGEON_TORCH_DATA: usize = 0x0fb40;
pub const DUNG_INDEX_OF_TORCHES_START: usize = 0x0478;
pub const GANON_TORCH_COUNT: usize = 0x04c5;
pub const TRIGGER_SPECIAL_ENTRANCE: usize = 0x04c6;
pub const WHICH_STAIRCASE_INDEX: usize = 0x0462;
pub const STAIRCASE_MOVE_COUNTER: usize = 0x0464;
pub const MOVABLE_BLOCK_DATAS: usize = 0x0f940;
pub const OVERWORLD_TILE_THEME_INDEX: usize = 0x0aa0;
pub const MAIN_TILE_THEME_INDEX: usize = 0x0aa1;
pub const AUX_TILE_THEME_INDEX: usize = 0x0aa2;
pub const SPRITE_GRAPHICS_INDEX: usize = 0x0aa3;
pub const SPRITE_GRAPHICS_INDEX_SPEXIT: usize = 0x0c127;
pub const SPRITE_GRAPHICS_INDEX_EXIT: usize = 0x0c167;
pub const DRAG_PLAYER_X: usize = 0x0b7c;
pub const DRAG_PLAYER_Y: usize = 0x0b7e;
pub const BLIND_HEAD_ANIM_COUNTER: usize = 0x0b69;
pub const SPRITE_LIMIT_INSTANCE: usize = 0x0b6a;
pub const SPRITE_ROOM_ORIGIN_X_HI: usize = 0x0fb0;
pub const SPRITE_ROOM_ORIGIN_Y_HI: usize = 0x0fb1;
pub const SPRITE_PICKUP_SLOT_CACHE: usize = 0x0fb2;
pub const SPRITE_SHARED_SCRATCH_A: usize = 0x0fb6;
pub const SPRITE_TILETYPE: usize = 0x0fa5;
pub const CUR_OBJECT_INDEX: usize = 0x0fa0;
pub const SPRITE_CHR_HALFSLOT_STATE: usize = 0x0fc6;
pub const SPRITE_ALERT_FLAG: usize = 0x0fdc;
pub const HAUNTED_GROVE_FLUTE_EVENT_LATCH: usize = 0x0fdd;
pub const CUR_SPRITE_X: usize = 0x0fd8;
pub const CUR_SPRITE_Y: usize = 0x0fda;
pub const SPRITE_RESET_SCRATCH_A: usize = 0x0ff8;
pub const SPRITE_RESET_SCRATCH_B: usize = 0x0ffb;
pub const REPULSESPARK_TIMER: usize = 0x0fac;
pub const REPULSESPARK_X_LO: usize = 0x0fad;
pub const REPULSESPARK_Y_LO: usize = 0x0fae;
pub const REPULSESPARK_FLOOR_STATUS: usize = 0x0b68;
pub const GARNISH_ACTIVE: usize = 0x0fb4;
pub const SPR_RANGED_BASED_TOGGLER: usize = 0x0fb7;
pub const SPRCOLL_Y_BASE: usize = 0x0fbe;
pub const ACTIVE_OVERLORD_INDEX: usize = 0x0fde;
pub const OVERWORLD_BOULDER_TRAP_COUNT: usize = 0x0ffd;
pub const OVERWORLD_BOULDER_TRAP_TIMER: usize = 0x0ffe;
pub const DUNGEON_TRAP_TRIGGER_LATCH: usize = 0x0b9e;
pub const DUNGEON_ROOM_HISTORY: usize = 0x0b80;
pub const DUNG_FLOOR_MOVE_FLAGS: usize = 0x041a;
pub const DUNG_FLOOR_X_OFFS: usize = 0x0422;
pub const DUNG_FLOOR_Y_OFFS: usize = 0x0424;
pub const ACTIVATE_BOMB_TRAP_OVERLORD: usize = 0x0cf4;
pub const OVERLORD_OFFSET_SPRITE_POS: usize = 0x0b48;
pub const OVERWORLD_OFFSET_BASE_Y: usize = 0x0708;
pub const OVERWORLD_OFFSET_MASK_Y: usize = 0x070a;
pub const OVERWORLD_OFFSET_BASE_X: usize = 0x070c;
pub const OVERWORLD_OFFSET_MASK_X: usize = 0x070e;
pub const TILEDETECT_INROOM_STAIRCASE: usize = 0x02c0;
pub const SCRATCH_1: usize = 0x0074;
pub const LIFTABLE_TILE_DETECTED_INDEX_DOUBLED: usize = 0x036a;
pub const KIND_OF_IN_ROOM_STAIRCASE: usize = 0x044a;
pub const DUNG_CHEST_LOCATIONS: usize = 0x06e0;
pub const MOVING_FLOOR_BG_CHECK_FLAGS: usize = 0x03f1;
pub const FORCE_MOVE_ANY_DIRECTION: usize = 0x0049;
pub const CHEAT_WALK_THROUGH_WALLS: usize = 0x037f;
pub const ROOM_TRANSITIONING_FLAGS: usize = 0x00ef;
pub const SPRITE_WHERE_IN_ROOM: usize = 0x1df80;
pub const SPRITE_DRAW_PRIORITY_OVERRIDE: usize = 0x0cfe;
pub const SPRITE_GFX_SUBSET_0: usize = 0x0c2fc;
pub const OVERWORLD_EXIT_TILE_THEME_INDEX: usize = 0x0c164;
pub const SCRATCH_R16: usize = 0x00c8;
pub const SCRATCH_R18: usize = 0x00ca;
pub const TEMP_COUNTER: usize = 0x0fb5;
pub const FLOOR_1_FILLER_TILES: usize = 0x0490;
pub const FLOOR_2_FILLER_TILES: usize = 0x046a;
pub const AUX_PALETTE_BUFFER: usize = 0x0c300;
pub const MAIN_PALETTE_BUFFER: usize = 0x0c500;
pub const PALETTE_FILTER_COUNTDOWN: usize = 0x0c007;
pub const OVERWORLD_PALETTE_AUX_OR_MAIN: usize = 0x0aa8;
pub const DARKENING_OR_LIGHTENING_SCREEN: usize = 0x0c009;
pub const MOSAIC_LEVEL: usize = 0x0c011;
pub const CGWSEL_COPY: usize = 0x0099;
pub const CGADSUB_COPY: usize = 0x009a;
pub const COLDATA_COPY0: usize = 0x009c;
pub const COLDATA_COPY1: usize = 0x009d;
pub const COLDATA_COPY2: usize = 0x009e;
pub const BIRD_TRAVEL_STATUS: usize = 0x1af0;
pub const DUNGEON_MAP_CURRENT_FLOOR: usize = 0x020e;
pub const MESSAGING_MODULE: usize = 0x1cd8;
pub const MESSAGE_OR_SPRITE_STATE_CACHE: usize = 0x02f0;
pub const TEXT_RENDER_STATE: usize = 0x1cd4;
pub const TEXT_WAIT_COUNTDOWN2: usize = 0x1ce9;
pub const MENU_ANIMATION_TIMER: usize = 0x00c8;
pub const GAME_OVER_LETTER_CURSOR: usize = 0x039d;
pub const MESSAGING_RENDER_BUFFER: usize = 0x10000;
pub const MESSAGING_TEXT_BUFFER: usize = 0x11200;
pub const DIALOGUE_MESSAGE_INDEX: usize = 0x1cf0;
pub const MULTISELECT_CHOICE: usize = 0x1ce8;
pub const MULTISELECT_CHOICE_BACKUP: usize = 0x1cf4;
pub const DIALOGUE_MSG_SRC_OFFS: usize = 0x1cdd;
pub const VWF_GLYPH_CURSOR: usize = 0x0724;
pub const VWF_ARR: usize = 0x0c230;
pub const ETHER_ANGLE: usize = 0x15800;
pub const ETHER_RADIUS: usize = 0x15808;
pub const ETHER_BEAM_Y: usize = 0x1580a;
pub const ETHER_BEAM_TOP_BUCKET: usize = 0x1580c;
pub const ETHER_ORBIT_X: usize = 0x1580e;
pub const ETHER_ORBIT_Y: usize = 0x15810;
pub const ETHER_SPIN_COUNTDOWN: usize = 0x15812;
pub const ETHER_ORB_Y: usize = 0x15813;
pub const ETHER_ORB_X: usize = 0x15815;
pub const HUD_INVENTORY_ORDER: usize = 0x0225;
pub const SELECT_FILE_TRANSITION_SCRATCH: usize = 0x00c9;
pub const SELECT_FILE_CHOICE_SCRATCH: usize = 0x00ca;
pub const SELECTFILE_SAVE_SLOT_FLAGS: usize = 0x00bf;
pub const SELECT_FILE_CURSOR_SCRATCH: usize = 0x00c8;
pub const SELECT_FILE_TARGET_SCRATCH: usize = 0x00ca;
pub const SELECT_FILE_REMEMBERED_CURSOR: usize = 0x0b9d;
pub const OVERWORLD_SCREEN_TRANS_DIR_BITS: usize = 0x0410;
pub const SOMARIA_BLOCK_BG_CHECK_FLAG: usize = 0x03f4;
pub const TAGALONG_SHARED_STATE_A: usize = 0x02d4;
pub const TAGALONG_ANIM_FRAME_COUNTER: usize = 0x02d7;
pub const PLAYER_POSE_DRAW_COUNTER: usize = 0x0379;
pub const PLAYER_SPECIAL_DRAW_FLAG: usize = 0x03fd;
pub const VIRQ_TRIGGER: usize = 0x00ff;
pub const GAME_OVER_CHECK_FLAG: usize = 0x010a;
pub const RESTART_CHECK_FLAG: usize = 0x04aa;
pub const WHICH_STARTING_POINT: usize = 0x0f3c8;
pub const PALETTE_SP0L: usize = 0x0aac;
pub const PALETTE_SP5L: usize = 0x0aad;
pub const PALETTE_SP6L: usize = 0x0aae;
pub const PALETTE_SP6R_INDOORS: usize = 0x0ab1;
pub const HUD_PALETTE: usize = 0x0ab2;
pub const OVERWORLD_PALETTE_AUX2_BP5TO7_HI: usize = 0x0ab5;
pub const PALETTE_MAIN_INDOORS: usize = 0x0ab6;
pub const OVERWORLD_PALETTE_AUX3_BP7_LO: usize = 0x0ab8;
pub const MISC_SPRITES_GRAPHICS_INDEX: usize = 0x0aa4;
pub const BIRDTRAVEL_STATUS: usize = 0x1af0;
pub const WHICH_ENTRANCE: usize = 0x10e;
pub const SPRCOLL_X_SIZE: usize = 0x0fb8;
pub const SPRCOLL_Y_SIZE: usize = 0x0fba;
pub const OAM_REGION_BASE: usize = 0x0fe0;
pub const OAM_REGION_ALLOC: usize = 0x0fec;
pub const INTRO_WANT_DOUBLE_RET: usize = 0x1e02;
pub const INTRO_SPRITE_ALLOC: usize = 0x1e08;
pub const TRIFORCE_CTR: usize = 0x1e0c;
pub const ENDING_WHICH_DUNG: usize = 0x0cc;
pub const ENDING_CREDIT_DIGIT_CHAR: usize = 0x0ce;
pub const BG_TILE_ANIMATION_COUNTDOWN: usize = 0x0c00d;
pub const INTRO_SWORD_YPOS: usize = 0xc8;
pub const INTRO_SWORD_SPARKLE_TIMER: usize = 0xca;
pub const INTRO_SWORD_SPARKLE_STEP: usize = 0xcb;
pub const INTRO_SWORD_ANIM_STEP: usize = 0xcc;
pub const INTRO_SWORD_SPARKLE_Y_OFFSET: usize = 0xcd;
pub const INTRO_SWORD_FLASH_RGB_CHANNEL: usize = 0xd0;
pub const RAW_SFX_PAN_VALUE: usize = 0x0cf8;
pub const TILE_INTERACTION_SHARED_FLAG: usize = 0x0223;
pub const PUSHED_BLOCK_MODE: usize = 0x02c3;
pub const DMA_HEAD_POINTER: usize = 0x0ae8;
pub const DMA_BODY_POINTER: usize = 0x0aea;
pub const OVERWORLD_FIXED_COLOR_PLUSMINUS: usize = 0x0c017;
pub const HUD_FLOOR_CHANGED_TIMER: usize = 0x04a0;
pub const SUPER_BOMB_INDICATOR_TIMER: usize = 0x4b4;
pub const SUPER_BOMB_INDICATOR_COUNTER: usize = 0x4b5;
pub const HDR_DUNGEON_DARK_WITH_LANTERN: usize = 0x458;
pub const HUD_MODULE_TICK_COUNTER: usize = 0x0206;
pub const FLASHING_CIRCLE_TIMER: usize = 0x0207;
pub const HEART_REFILL_COUNTDOWN: usize = 0x0208;
pub const HEART_REFILL_ANIM_SUBPOS: usize = 0x0209;
pub const IS_DOING_HEART_ANIMATION: usize = 0x020a;
pub const MENU_PREV_JOYPAD_H: usize = 0x0bd;
pub const BOTTLE_MENU_ROW: usize = 0x0205;
pub const EQUIPMENT_MENU_EXIT_STATE: usize = 0x034b;
pub const RUPEE_SFX_SOUND_DELAY: usize = 0x0cfd;
pub const IS_IN_DARK_WORLD_FLAG: usize = 0x0fff;
pub const FLAG_OVERWORLD_AREA_CHANGED: usize = 0x0abf;
pub const LAST_LIGHT_VS_DARK_WORLD: usize = 0x007b;
pub const SPRCOLL_X_BASE: usize = 0x0fbc;
pub const ARCHERY_GAME_HIT_COUNTER: usize = 0x0b88;
pub const ARCHERY_GAME_ARROWS_LEFT: usize = 0x0b99;
pub const ARCHERY_GAME_OUT_OF_ARROWS: usize = 0x0b9a;
pub const ITEM_DROP_COUNTER: usize = 0x0b9b;
pub const MINIGAME_CREDITS: usize = 0x04c4;
pub const FLAG_FOR_BOOMERANG_IN_PLACE: usize = 0x35f;
pub const ORANGE_BLUE_BARRIER_STATE: usize = 0x0c172;
pub const SHARED_MESSAGE_TIMER: usize = 0x2cd;
pub const ITEM_DROP_LUCK: usize = 0x0cf9;
pub const LUCK_KILL_COUNTER: usize = 0x0cfa;
pub const NUM_SPRITES_KILLED: usize = 0x0cfb;
pub const DAMAGE_TYPE_DETERMINER: usize = 0x0cf2;
pub const SET_WHEN_DAMAGING_ENEMIES: usize = 0x0047;
pub const TIMES_HURT_BY_SPRITES: usize = 0x0cfc;
pub const SELECT_FILE_COPY_SOURCE_SLOT_X2: usize = 0x00cc;
pub const SELECT_FILE_NAME_SCROLL_X: usize = 0x0630;
pub const SELECT_FILE_NAME_COLUMN: usize = 0x0b10;
pub const SELECT_FILE_NAME_CURSOR_Y: usize = 0x0b11;
pub const SELECT_FILE_NAME_SLOT: usize = 0x0b12;
pub const SELECT_FILE_NAME_SCROLL_X_STEP: usize = 0x0b13;
pub const SELECT_FILE_NAME_SCROLL_Y_STEP: usize = 0x0b14;
pub const SELECT_FILE_NAME_ROW: usize = 0x0b15;
pub const SELECT_FILE_NAME_SCROLL_X_DIRECTION: usize = 0x0b16;
pub const ENDING_SCRATCH_PRIMARY: usize = 0x00c8;
pub const ENDING_SCRATCH_SECONDARY: usize = 0x00ca;
pub const SAVE_LOAD_SOURCE_OFFSET: usize = 0x0000;
pub const DUNGEON_MAP_SCROLL_DRAW_OFFSET: usize = 0x0006;
pub const DUNGEON_MAP_SCROLL_INPUT: usize = 0x000a;
pub const DUNGEON_MAP_MARKER_X_OFFSET: usize = 0x0fa8;
pub const DUNGEON_MAP_MARKER_Y_OFFSET: usize = 0x0faa;
pub const DUNGEON_MAP_LOCATION_MARKER_BASE_Y: usize = 0x0cf5;
pub const DUNGEON_SECRET_PENDING_KIND: usize = 0x0b9c;
pub const OVERWORLD_SECRET_SUBST_CTR: usize = 0x0cf7;
pub const SPRITE_OAM_PREP_X: usize = 0x0000;
pub const SPRITE_OAM_PREP_Y: usize = 0x0002;
pub const SPRITE_LOAD_BLOCK_SCRATCH: usize = 0x0000;
pub const SPRITE_LAST_GARNISH_INDEX: usize = 0x000f;
pub const BG1_H_SCROLL_COPY: usize = 0x0120;
pub const BG1_V_SCROLL_COPY: usize = 0x0124;
pub const BG2_H_SCROLL_COPY: usize = 0x011e;
pub const BG2_V_SCROLL_COPY: usize = 0x0122;
pub const BG3_H_SCROLL_COPY2: usize = 0x00e4;
pub const BG3_V_SCROLL_COPY2: usize = 0x00ea;
pub const BG2_H_SCROLL_COPY2_CACHED: usize = 0x0c180;
pub const BG2_V_SCROLL_COPY2_CACHED: usize = 0x0c182;
pub const MAP_BACKUP_BG1_H_SCROLL_COPY2: usize = 0x0c200;
pub const MAP_BACKUP_BG2_H_SCROLL_COPY2: usize = 0x0c202;
pub const MAP_BACKUP_BG1_V_SCROLL_COPY2: usize = 0x0c204;
pub const MAP_BACKUP_BG2_V_SCROLL_COPY2: usize = 0x0c206;
pub const BG2_V_SCROLL_COPY2_SPECIAL_EXIT: usize = 0x0c104;
pub const BG2_H_SCROLL_COPY2_SPECIAL_EXIT: usize = 0x0c106;
pub const BG2_V_SCROLL_COPY2_EXIT: usize = 0x0c144;
pub const BG2_H_SCROLL_COPY2_EXIT: usize = 0x0c146;
pub const BG1_H_SCROLL_SUBPIXEL: usize = 0x0620;
pub const BG1_V_SCROLL_SUBPIXEL: usize = 0x0622;
pub const MODE7_CENTER_X_COPY: usize = 0x0638;
pub const MODE7_CENTER_Y_COPY: usize = 0x063a;
pub const ATTRACT_VRAM_DST: usize = 0x0030;
pub const ATTRACT_STORY_TEXT_POINTER: usize = 0x002d;
pub const ATTRACT_BG2_VOFS_BACKUP: usize = 0x0020;
pub const ATTRACT_NEXT_LEGEND_GFX: usize = 0x0026;
pub const ATTRACT_LEGEND_FLAG: usize = 0x0027;
pub const ATTRACT_PRISON_ZELDA_Y_BASE: usize = 0x002b;
pub const ATTRACT_THRONE_FADE_TIMER: usize = 0x002c;
pub const ATTRACT_ANIM_STEP_COUNTER: usize = 0x0032;
pub const ATTRACT_SOLDIER_ANIM_STEP: usize = 0x0033;
pub const ATTRACT_PRISON_SOLDIER_X_LO: usize = 0x0034;
pub const ATTRACT_SCENE_FRAME_COUNTER: usize = 0x0050;
pub const ATTRACT_FADE_IN_COMPLETE_FLAG: usize = 0x0052;
pub const ATTRACT_SCENE_DONE_FLAG: usize = 0x005d;
pub const ATTRACT_FADE_IN_DONE_FLAG: usize = 0x005f;
pub const ATTRACT_SUBSTEP_DELAY_COUNTER: usize = 0x0061;
pub const ATTRACT_MAIDEN_WARP_TIMER_A: usize = 0x0062;
pub const ATTRACT_MAIDEN_WARP_TIMER_B: usize = 0x0063;
pub const ATTRACT_LEGEND_CTR: usize = 0x0200;
pub const TIMER_FOR_MODE7_ZOOM: usize = 0x0637;
pub const OVERWORLD_PALETTE_MODE: usize = 0x0ab3;
pub const INTRO_TIMES_PAL_FLASH: usize = 0x0ff9;
pub const INTRO_STEP_INDEX: usize = 0x1e00;
pub const INTRO_STEP_TIMER: usize = 0x1e01;
pub const INTRO_FRAME_CTR: usize = 0x1e0a;
pub const INTRO_DID_RUN_STEP: usize = 0x1f00;
pub const TILEDETECT_DEEPWATER: usize = 0x0341;
pub const TILEDETECT_NORMAL_TILES: usize = 0x0343;
pub const TILEDETECT_THICK_GRASS: usize = 0x0357;
pub const TILEDETECT_VERTICAL_LEDGE: usize = 0x036d;
pub const DETECTION_OF_LEDGE_TILES_HORIZ_UPHORIZ: usize = 0x036e;
pub const LINK_PALETTE_BITS_OF_OAM: usize = 0x0346;
pub const LINK_DMA_SOURCE_OFFSET: usize = 0x0c00f;
pub const LINK_DMA_COUNTDOWN: usize = 0x0c013;
pub const LINK_DMA_TILE_OFFSET: usize = 0x0c015;
pub const AUX_BG_SUBSET_0: usize = 0x0c2f8;
pub const AGAHNIM_PAL_SETTING: usize = 0x0c019;
pub const PRIMARY_DECOMP_BUFFER_LOAD_GFX: usize = 0x14000;
pub const SECONDARY_DECOMP_BUFFER_LOAD_GFX: usize = PRIMARY_DECOMP_BUFFER_LOAD_GFX + 0x600;
pub const BG_DECOMP_BUFFER_LOAD_GFX: usize = 0x6000;
pub const SPRITE_DECOMP_BUFFER_LOAD_GFX: usize = 0x7800;
pub const GRAPHICS_DECOMP_BUFFER_END: usize = 0x9000;
pub const SPRITE_STATE: usize = 0x0dd0;
pub const SPRITE_TYPE: usize = 0x0e20;
pub const SPRITE_Y_LO: usize = 0x0d00;
pub const SPRITE_X_LO: usize = 0x0d10;
pub const SPRITE_Y_HI: usize = 0x0d20;
pub const SPRITE_X_HI: usize = 0x0d30;
pub const SPRITE_Y_VELOCITY: usize = 0x0d40;
pub const SPRITE_X_VELOCITY: usize = 0x0d50;
pub const SPRITE_Y_SUBPIXEL: usize = 0x0d60;
pub const SPRITE_X_SUBPIXEL: usize = 0x0d70;
pub const SPRITE_AI_STATE: usize = 0x0d80;
pub const SPRITE_A: usize = 0x0d90;
pub const SPRITE_B: usize = 0x0da0;
pub const SPRITE_C: usize = 0x0db0;
pub const SPRITE_GRAPHICS: usize = 0x0dc0;
pub const SPRITE_D: usize = 0x0de0;
pub const SPRITE_DELAY_AUX1: usize = 0x0e00;
pub const SPRITE_DELAY_MAIN: usize = 0x0df0;
pub const SPRITE_FLAGS2: usize = 0x0e40;
pub const SPRITE_HEALTH: usize = 0x0e50;
pub const SPRITE_FLAGS3: usize = 0x0e60;
pub const SPRITE_WALL_COLLISION: usize = 0x0e70;
pub const SPRITE_ANIM_CLOCK: usize = 0x0ec0;
pub const SPRITE_G: usize = 0x0ed0;
pub const SPRITE_DELAY_AUX3: usize = 0x0ee0;
pub const SPRITE_SUBTYPE2: usize = 0x0e80;
pub const SPRITE_F: usize = 0x0ea0;
pub const SPRITE_HEAD_DIR: usize = 0x0eb0;
pub const SPRITE_HIT_TIMER: usize = 0x0ef0;
pub const SPRITE_PAUSE: usize = 0x0f00;
pub const SPRITE_FLOOR: usize = 0x0f20;
pub const SPRITE_Y_RECOIL: usize = 0x0f30;
pub const SPRITE_X_RECOIL: usize = 0x0f40;
pub const SPRITE_OAM_FLAGS: usize = 0x0f50;
pub const SPRITE_FLAGS4: usize = 0x0f60;
pub const SPRITE_FLAGS5: usize = 0x0be0;
pub const SPRITE_Z: usize = 0x0f70;
pub const SPRITE_Z_VELOCITY: usize = 0x0f80;
pub const SPRITE_Z_SUBPIXEL: usize = 0x0f90;
pub const SPRITE_OBJ_PRIO: usize = 0x0b89;
pub const SPRITE_STUNNED: usize = 0x0b58;
pub const SPRITE_FLAGS: usize = 0x0b6b;
pub const SPRITE_IGNORE_PROJECTILE: usize = 0x0ba0;
pub const SPRITE_DRAW_WORK_BYTE_2: usize = 0x0bb0;
pub const SPRITE_N: usize = 0x0bc0;
pub const SPRITE_ROOM: usize = 0x0c9a;
pub const SPRITE_DIE_ACTION: usize = 0x0cba;
pub const SPRITE_DEFL_BITS: usize = 0x0caa;
pub const SPRITE_BUMP_DAMAGE: usize = 0x0cd2;
pub const SPRITE_INCOMING_DAMAGE: usize = 0x0ce2;
pub const SPRITE_E: usize = 0x0e90;
pub const SPRITE_SUBTYPE: usize = 0x0e30;
pub const SPRITE_DELAY_AUX2: usize = 0x0e10;
pub const SPRITE_DELAY_AUX4: usize = 0x0f10;
pub const SPRITE_DRAW_I: usize = 0x1f9c2;
pub const SPRITE_DRAW_WORK_BYTE_3: usize = 0x1fa1c;
pub const SPRITE_DRAW_WORK_BYTE_4: usize = 0x1fa2c;
pub const SPRITE_DRAW_WORK_BYTE_5: usize = 0x1fa3c;
pub const SPRITE_DRAW_WORK_BYTE_1: usize = 0x1fa4c;
pub const ANCILLA_Z_VELOCITY: usize = 0x0294;
pub const ANCILLA_Z: usize = 0x029e;
pub const ANCILLA_Z_SUBPIXEL_PLAYER: usize = 0x02a8;
pub const ANCILLA_Y_LO: usize = 0x0bfa;
pub const ANCILLA_X_LO: usize = 0x0c04;
pub const ANCILLA_Y_HI: usize = 0x0c0e;
pub const ANCILLA_X_HI: usize = 0x0c18;
pub const ANCILLA_Y_VELOCITY: usize = 0x0c22;
pub const ANCILLA_X_VELOCITY: usize = 0x0c2c;
pub const ANCILLA_Y_SUBPIXEL: usize = 0x0c36;
pub const ANCILLA_X_SUBPIXEL: usize = 0x0c40;
pub const ANCILLA_TYPE: usize = 0x0c4a;
pub const ANCILLA_ITEM_TO_LINK: usize = 0x0c5e;
pub const ANCILLA_TIMER: usize = 0x0c68;
pub const ANCILLA_DIRECTION: usize = 0x0c72;
pub const ANCILLA_FLOOR: usize = 0x0c7c;
pub const ANCILLA_OAM_IDX: usize = 0x0c86;
pub const ANCILLA_NUMSPR: usize = 0x0c90;
pub const ANCILLA_STEP: usize = 0x0c54;
pub const ANCILLA_OBJPRIO: usize = 0x0280;
pub const ANCILLA_U: usize = 0x028a;
pub const ANCILLA_A: usize = 0x038a;
pub const ANCILLA_B: usize = 0x038f;
pub const ANCILLA_K: usize = 0x0380;
pub const ANCILLA_H: usize = 0x03c5;
pub const ANCILLA_R: usize = 0x03ea;
pub const ANCILLA_AUX_TIMER: usize = 0x03b1;
pub const ANCILLA_FLOOR2: usize = 0x03ca;
pub const ANCILLA_WORK_BYTE_23: usize = 0x03cf;
pub const ANCILLA_T_PLAYER: usize = 0x03d5;
pub const ANCILLA_TILE_ATTRIBUTE: usize = 0x03e4;
pub const ANCILLA_WORK_BYTE_3: usize = 0x039f;
pub const ANCILLA_WORK_BYTE_1: usize = 0x03a4;
pub const ANCILLA_S_PLAYER: usize = 0x03a9;
pub const ANCILLA_L: usize = 0x0385;
pub const ANCILLA_G: usize = 0x0394;
pub const ANCILLA_WORK_BYTE_4: usize = 0x0bf0;
pub const ANCILLA_WORK_BYTE_25: usize = 0x0746;
pub const ANCILLA_WORK_BYTE_22: usize = 0x074b;
pub const ANCILLA_WORK_BYTE_24: usize = 0x03db;
pub const ANCILLA_WORK_BYTE_26: usize = 0x0741;
pub const TAGALONG_DATA_INDEX: usize = 0x02cf;
pub const TAGALONG_HOOKSHOT_INTERLOCK: usize = 0x02d0;
pub const FOLLOWER_TAIL_WRITE_INDEX: usize = 0x02d3;
pub const FOLLOWER_HOOKSHOT_RELEASE_TAIL_INDEX: usize = 0x02d1;
pub const TIMER_TAGALONG_REACQUIRE: usize = 0x02d2;
pub const TAGALONG_APPEARANCE_NONE_FLAG: usize = 0x02f9;
pub const TAGALONG_Y_LO: usize = 0x1a00;
pub const TAGALONG_Y_HI: usize = 0x1a14;
pub const TAGALONG_X_LO: usize = 0x1a28;
pub const TAGALONG_X_HI: usize = 0x1a3c;
pub const TAGALONG_Z: usize = 0x1a50;
pub const TAGALONG_LAYERBITS: usize = 0x1a64;
pub const FOLLOWER_INDICATOR: usize = 0x0f3cc;
pub const FOLLOWER_SAVED_Y: usize = 0x0f3cd;
pub const FOLLOWER_SAVED_X: usize = 0x0f3cf;
pub const FOLLOWER_SAVED_INDOORS: usize = 0x0f3d1;
pub const FOLLOWER_SAVED_FLOOR: usize = 0x0f3d2;
pub const FOLLOWER_DROPPED: usize = 0x0f3d3;
pub const FOLLOWER_JUMP_TIMER: usize = 0x02d6;
pub const FOLLOWER_KIKI_ANIM_COUNTER: usize = 0x0b69;
pub const FOLLOWER_PALETTE_SWAP_FLAG: usize = 0x0abd;
pub const ZELDA_RESCUE_CUTSCENE_STATE: usize = 0x1fe01;
pub const OVERLORD_X_LO: usize = 0x0b08;
pub const OVERLORD_X_HI: usize = 0x0b10;
pub const OVERLORD_Y_LO: usize = 0x0b18;
pub const OVERLORD_Y_HI: usize = 0x0b20;
pub const OVERLORD_GEN1: usize = 0x0b28;
pub const OVERLORD_GEN2: usize = 0x0b30;
pub const OVERLORD_GEN3: usize = 0x0b38;
pub const OVERLORD_FLOOR: usize = 0x0b40;
pub const OVERLORD_TYPE: usize = 0x0b00;
pub const OVERLORD_SPAWNED_AREA: usize = 0x0cca;
pub const OVERWORLD_SCROLL_DELTA: usize = 0x069e;
pub const OVERWORLD_SPRITE_PRESENCE: usize = 0x1df80;
pub const OVERWORLD_SPRITE_WAS_LOADED: usize = 0x1ef80;
pub const OVERWORLD_MUSIC_TABLE: usize = 0x15b00;
pub const OVERWORLD_SPRITE_GFX_TABLE: usize = 0x0fcc0;
pub const OVERWORLD_SPRITE_PALETTE_TABLE: usize = 0x0fd40;
pub const OVERWORLD_AREA_IS_BIG: usize = 0x0712;
pub const OVERWORLD_AREA_IS_BIG_BACKUP: usize = 0x0714;
pub const OVERWORLD_RIGHT_BOTTOM_SCROLL_BOUND: usize = 0x0716;
pub const ROOM_BOUNDS: usize = 0x0600;
pub const VRAM_UPLOAD_OFFSET: usize = 0x1000;
pub const VRAM_UPLOAD_DATA: usize = 0x1002;
pub const OVERWORLD_MAP16_DECODE_SRC: usize = 0x14000;
pub const OVERWORLD_DECOMP_SCRATCH: usize = 0x14400;
pub const POLY_CONFIG_COLOR_MODE: usize = 0x1f01;
pub const POLY_CONFIG1: usize = 0x1f02;
pub const POLY_WHICH_MODEL: usize = 0x1f03;
pub const POLY_A: usize = 0x1f04;
pub const POLY_B: usize = 0x1f05;
pub const POLY_BASE_X: usize = 0x1f06;
pub const POLY_BASE_Y: usize = 0x1f07;
pub const POLY_SHAPE_DEPTH_BIAS: usize = 0x1f08;
pub const POLY_CONFIG_NUM_VERTEX: usize = 0x1f3f;
pub const POLY_CONFIG_NUM_POLYS: usize = 0x1f40;
pub const POLY_FROMLUT_Z: usize = 0x1f45;
pub const POLY_FROMLUT_Y: usize = 0x1f46;
pub const POLY_FROMLUT_X: usize = 0x1f47;
pub const POLY_F0: usize = 0x1f48;
pub const POLY_F1: usize = 0x1f4a;
pub const POLY_NUM_VERTEX_IN_POLY: usize = 0x1f4e;
pub const POLY_RASTER_COLOR_CONFIG: usize = 0x1f4f;
pub const POLY_TMP0: usize = 0x1fb0;
pub const POLY_TMP2: usize = 0x1fbc;
pub const POLYHEDRAL_BUFFER: usize = 0xe800;
pub const POLY_PROJECTED_X: usize = 0x1f60;
pub const POLY_PROJECTED_Y: usize = 0x1f88;
pub const POLY_FACE_COORDS: usize = 0x1fc0;
pub const POLY_X0_CUR: usize = 0x1fe1;
pub const POLY_Y0_CUR: usize = 0x1fe2;
pub const POLY_X0_TARGET: usize = 0x1fe3;
pub const POLY_Y0_TRIG: usize = 0x1fe4;
pub const POLY_X1_CUR: usize = 0x1fea;
pub const POLY_Y1_CUR: usize = 0x1feb;
pub const POLY_X1_TARGET: usize = 0x1fec;
pub const POLY_Y1_TRIG: usize = 0x1fed;
pub const POLY_TOTAL_NUM_STEPS: usize = 0x1fe0;
pub const POLY_CUR_VERTEX_IDX0: usize = 0x1fe9;
pub const POLY_CUR_VERTEX_IDX1: usize = 0x1ff2;
pub const GARNISH_TYPE: usize = 0x1f800;
pub const GARNISH_Y_LO: usize = 0x1f81e;
pub const GARNISH_X_LO: usize = 0x1f83c;
pub const GARNISH_Y_HI: usize = 0x1f85a;
pub const GARNISH_X_HI: usize = 0x1f878;
pub const GARNISH_Y_VELOCITY: usize = 0x1f896;
pub const GARNISH_X_VELOCITY: usize = 0x1f8b4;
pub const GARNISH_Y_SUBPIXEL: usize = 0x1f8d2;
pub const GARNISH_X_SUBPIXEL: usize = 0x1f8f0;
pub const GARNISH_COUNTDOWN: usize = 0x1f90e;
pub const GARNISH_SPRITE: usize = 0x1f92c;
pub const GARNISH_FLOOR: usize = 0x1f968;
pub const GARNISH_OAM_FLAGS: usize = 0x1f9fe;
pub const OAM_PRIORITY_VALUE: usize = 0x0064;
pub const EXTENDED_OAM: usize = 0x0a00;
pub const OAM_BUF: usize = 0x0800;
pub const BYTEWISE_EXTENDED_OAM: usize = 0x0a20;
pub const SORT_SPRITES_SETTING: usize = 0x0fb3;
pub const DOOR_TYPE_AND_SLOT: usize = 0x1980;
pub const DUNGEON_DOOR_DIRECTION: usize = 0x19c0;
pub const DUNGEON_BG2_ATTR_TABLE: usize = 0x12000;
pub const DUNGEON_BG1_ATTR_TABLE: usize = 0x13000;
pub const INTRO_SPRITE_IS_INITED: usize = 0x1e10;
pub const INTRO_SPRITE_SUBTYPE: usize = 0x1e18;
pub const INTRO_SPRITE_STATE: usize = 0x1e20;
pub const INTRO_X_SUBPIXEL: usize = 0x1e28;
pub const INTRO_X_LO: usize = 0x1e30;
pub const INTRO_X_HI: usize = 0x1e38;
pub const INTRO_Y_SUBPIXEL: usize = 0x1e40;
pub const INTRO_Y_LO: usize = 0x1e48;
pub const INTRO_Y_HI: usize = 0x1e50;
pub const INTRO_X_VEL: usize = 0x1e58;
pub const INTRO_Y_VEL: usize = 0x1e60;
pub const ALT_SPRITE_STATE: usize = 0x1d00;
pub const ALT_SPRITE_TYPE: usize = 0x1d10;
pub const ALT_SPRITE_X_LO: usize = 0x1d20;
pub const ALT_SPRITE_X_HI: usize = 0x1d30;
pub const ALT_SPRITE_Y_LO: usize = 0x1d40;
pub const ALT_SPRITE_Y_HI: usize = 0x1d50;
pub const ALT_SPRITE_GRAPHICS: usize = 0x1d60;
pub const ALT_SPRITE_A: usize = 0x1d70;
pub const ALT_SPRITE_HEAD_DIR: usize = 0x1d80;
pub const ALT_SPRITE_OAM_FLAGS: usize = 0x1d90;
pub const ALT_SPRITE_OBJ_PRIO: usize = 0x1da0;
pub const ALT_SPRITE_D: usize = 0x1db0;
pub const ALT_SPRITE_FLAGS2: usize = 0x1dc0;
pub const ALT_SPRITE_FLOOR: usize = 0x1dd0;
pub const ALT_SPRITE_SPAWNED_FLAG: usize = 0x1de0;
pub const ALT_SPRITES_FLAG: usize = 0x0ffa;
pub const ALT_SPRITE_FLAGS3: usize = 0x1df0;
pub const ALT_SPRITE_B: usize = 0x1fa5c;
pub const ALT_SPRITE_C: usize = 0x1fa6c;
pub const ALT_SPRITE_E: usize = 0x1fa7c;
pub const ALT_SPRITE_SUBTYPE2: usize = 0x1fa8c;
pub const ALT_SPRITE_HEIGHT_ABOVE_SHADOW: usize = 0x1fa9c;
pub const ALT_SPRITE_DELAY_MAIN: usize = 0x1faac;
pub const ALT_SPRITE_I: usize = 0x1facc;
pub const ALT_SPRITE_IGNORE_PROJECTILE: usize = 0x1fadc;
pub const EFFECT_ANGLE_SCRATCH: usize = 0x15800;
pub const QUAKE_BOLT_TIMER: usize = 0x15800;
pub const QUAKE_BOLT_PHASE: usize = 0x15805;
pub const QUAKE_ACTIVE_BOLT_LIMIT: usize = 0x1580a;
pub const QUAKE_ORIGIN_Y: usize = 0x1580b;
pub const QUAKE_ORIGIN_X: usize = 0x1580d;
pub const QUAKE_PENDING_STEP: usize = 0x1580f;
pub const QUAKE_SCREEN_SHAKE_Y: usize = 0x1581e;
pub const BOMBOS_FIRE_COLUMN_TIMER: usize = 0x15800;
pub const BOMBOS_FIRE_COLUMN_PHASE: usize = 0x15810;
pub const BOMBOS_FIRE_COLUMN_RADIAL_ANGLE: usize = 0x15820;
pub const BOMBOS_FIRE_COLUMN_Y_LO: usize = 0x15824;
pub const BOMBOS_FIRE_COLUMN_Y_HI: usize = 0x15864;
pub const BOMBOS_FIRE_COLUMN_X_LO: usize = 0x158a4;
pub const BOMBOS_FIRE_COLUMN_X_HI: usize = 0x158e4;
pub const BOMBOS_FIRE_COLUMN_SEED_Y: usize = 0x15924;
pub const BOMBOS_FIRE_COLUMN_SEED_X: usize = 0x1592c;
pub const BOMBOS_MODE: usize = 0x15934;
pub const BOMBOS_BLAST_PHASE: usize = 0x15935;
pub const BOMBOS_BLAST_TIMER: usize = 0x15945;
pub const BOMBOS_BLAST_Y: usize = 0x15955;
pub const BOMBOS_BLAST_X: usize = 0x159d5;
pub const BOMBOS_BLAST_RELEASE_COUNTDOWN: usize = 0x15a55;
pub const BOMBOS_BLAST_RELEASE_LOCKED: usize = 0x15a56;
pub const BOMBOS_FIRE_COLUMN_RADIUS: usize = 0x15a57;
pub const TOWER_SEAL_ORBIT_ANGLE: usize = 0x15800;
pub const TOWER_SEAL_RING_RADIUS: usize = 0x15808;
pub const TOWER_SEAL_CENTER_X: usize = 0x1580e;
pub const TOWER_SEAL_CENTER_Y: usize = 0x15810;
pub const TOWER_SEAL_WAIT_COUNTDOWN: usize = 0x15812;
pub const TOWER_SEAL_BASE_SPARKLE_Y_LO: usize = 0x15817;
pub const TOWER_SEAL_BASE_SPARKLE_Y_HI: usize = 0x1581f;
pub const TOWER_SEAL_BASE_SPARKLE_X_LO: usize = 0x15827;
pub const TOWER_SEAL_BASE_SPARKLE_X_HI: usize = 0x1582f;
pub const TOWER_SEAL_SPARKLE_PHASE: usize = 0x15837;
pub const TOWER_SEAL_SPARKLE_Y_LO: usize = 0x1584f;
pub const TOWER_SEAL_SPARKLE_Y_HI: usize = 0x15867;
pub const TOWER_SEAL_SPARKLE_X_LO: usize = 0x1587f;
pub const TOWER_SEAL_SPARKLE_X_HI: usize = 0x15897;
pub const TOWER_SEAL_SPARKLE_TIMER: usize = 0x158af;
pub const BLAST_WALL_EXPLOSION_PHASE: usize = 0x10000;
pub const BLAST_WALL_EXPLOSION_TIMER: usize = 0x10008;
pub const BLAST_WALL_ENTRY_STATE: usize = 0x10010;
pub const BLAST_WALL_SECONDARY_STATE: usize = 0x10011;
pub const BLAST_WALL_CENTER_Y: usize = 0x10018;
pub const BLAST_WALL_CENTER_X: usize = 0x1001a;
pub const BLAST_WALL_DIRECTION: usize = 0x1001c;
pub const BLAST_WALL_FRAGMENT_Y: usize = 0x10020;
pub const BLAST_WALL_FRAGMENT_X: usize = 0x10030;
pub const BLAST_WALL_FIREBALL_TIMER: usize = 0x10040;
pub const SKULL_WOODS_FIRE_PHASE: usize = 0x10000;
pub const SKULL_WOODS_FIRE_TIMER: usize = 0x10008;
pub const SKULL_WOODS_FIRE_STARTED: usize = 0x10010;
pub const SKULL_WOODS_FIRE_INNER_Y: usize = 0x10018;
pub const SKULL_WOODS_FIRE_INNER_X: usize = 0x1001a;
pub const SKULL_WOODS_FIRE_OUTER_Y: usize = 0x10026;
pub const SKULL_WOODS_FIRE_OUTER_X: usize = 0x10036;
pub const SKULL_WOODS_FIRE_Y: usize = 0x10020;
pub const SKULL_WOODS_FIRE_X: usize = 0x10030;
pub const HAPPINESS_POND_Y_VEL: usize = 0x15800;
pub const HAPPINESS_POND_X_VEL: usize = 0x1580c;
pub const HAPPINESS_POND_Z_VEL: usize = 0x15818;
pub const HAPPINESS_POND_Y_LO: usize = 0x15824;
pub const HAPPINESS_POND_Y_HI: usize = 0x15830;
pub const HAPPINESS_POND_X_LO: usize = 0x1583c;
pub const HAPPINESS_POND_X_HI: usize = 0x15848;
pub const HAPPINESS_POND_Z: usize = 0x15854;
pub const HAPPINESS_POND_TIMER: usize = 0x15860;
pub const HAPPINESS_POND_ACTIVE: usize = 0x1586c;
pub const HAPPINESS_POND_ITEM_TO_LINK: usize = 0x1587a;
pub const HAPPINESS_POND_Y_SUBPIXEL: usize = 0x15886;
pub const HAPPINESS_POND_X_SUBPIXEL: usize = 0x15892;
pub const HAPPINESS_POND_Z_SUBPIXEL: usize = 0x1589e;
pub const HAPPINESS_POND_STEP: usize = 0x158aa;
pub const WEATHERVANE_Y_VELOCITY: usize = 0x15800;
pub const WEATHERVANE_X_VELOCITY: usize = 0x1580c;
pub const WEATHERVANE_Z_VELOCITY: usize = 0x15818;
pub const WEATHERVANE_Y_LO: usize = 0x15824;
pub const WEATHERVANE_Y_HI: usize = 0x15830;
pub const WEATHERVANE_X_LO: usize = 0x1583c;
pub const WEATHERVANE_X_HI: usize = 0x15848;
pub const WEATHERVANE_Z: usize = 0x15854;
pub const WEATHERVANE_ANIM_TIMER: usize = 0x15860;
pub const WEATHERVANE_DRAW_STATE: usize = 0x1586c;
pub const WEATHERVANE_SOURCE_SLOT: usize = 0x15878;
pub const WEATHERVANE_OAM_OFFSET: usize = 0x15879;
pub const WEATHERVANE_COUNTDOWN: usize = 0x158b6;
pub const WEATHERVANE_MUSIC_LATCH: usize = 0x158b8;
pub const BIRD_TRAVEL_X_LO: usize = 0x1ab0;
pub const BIRD_TRAVEL_X_HI: usize = 0x1ac0;
pub const BIRD_TRAVEL_Y_LO: usize = 0x1ad0;
pub const BIRD_TRAVEL_Y_HI: usize = 0x1ae0;
pub const MOLDORM_HISTORY_X_LO: usize = 0x1fc00;
pub const MOLDORM_HISTORY_X_HI: usize = 0x1fc80;
pub const MOLDORM_HISTORY_Y_LO: usize = 0x1fd00;
pub const MOLDORM_HISTORY_Y_HI: usize = 0x1fd80;
pub const SWAMOLA_HISTORY_X_LO: usize = 0x1fa5c;
pub const SWAMOLA_HISTORY_X_HI: usize = 0x1fb1c;
pub const SWAMOLA_HISTORY_Y_LO: usize = 0x1fbdc;
pub const SWAMOLA_HISTORY_Y_HI: usize = 0x1fc9c;
pub const SWAMOLA_TARGET_X_LO: usize = 0x1fd5c;
pub const SWAMOLA_TARGET_X_HI: usize = 0x1fd62;
pub const SWAMOLA_TARGET_Y_LO: usize = 0x1fd68;
pub const SWAMOLA_TARGET_Y_HI: usize = 0x1fd6e;
pub const BEAMOS_LASER_HISTORY_X_LO: usize = 0x1fd80;
pub const BEAMOS_LASER_HISTORY_X_HI: usize = 0x1fe00;
pub const BEAMOS_LASER_HISTORY_Y_LO: usize = 0x1fe80;
pub const BEAMOS_LASER_HISTORY_Y_HI: usize = 0x1ff00;
pub const DIGGING_GAME_PRIZE_SPAWNED: usize = BEAMOS_LASER_HISTORY_X_HI;
pub const DIGGING_GAME_PRIZE_ATTEMPTS: usize = BEAMOS_LASER_HISTORY_X_HI + 1;
pub const DRAW_SCRATCH_POSITION_X: usize = 0x0fa8;
pub const DRAW_SCRATCH_POSITION_Y: usize = 0x0fa9;
pub const DRAW_SCRATCH_FLAGS_HI: usize = 0x0fab;
pub const HITBOX_SCRATCH_Y_OFFSET: usize = 0x0faa;
pub const HITBOX_SCRATCH_X_OFFSET: usize = 0x0fab;
pub const DIALOGUE_NUMBER_LO: usize = 0x1cf2;
pub const DIALOGUE_NUMBER_HI: usize = 0x1cf3;
pub const ENEMY_DAMAGE_DATA: usize = 0x16000;
pub const PRIZE_DROP_CYCLE: usize = 0x0fc7;
pub const DUAL_LAYER_TILE_CACHE: usize = 0x1fabc;
pub const CACHED_SPRITE_LIVE_FIELDS: [usize; 24] = [
    SPRITE_STATE,
    SPRITE_TYPE,
    SPRITE_X_LO,
    SPRITE_X_HI,
    SPRITE_Y_LO,
    SPRITE_Y_HI,
    SPRITE_GRAPHICS,
    SPRITE_A,
    SPRITE_HEAD_DIR,
    SPRITE_OAM_FLAGS,
    SPRITE_OBJ_PRIO,
    SPRITE_D,
    SPRITE_FLAGS2,
    SPRITE_FLOOR,
    SPRITE_AI_STATE,
    SPRITE_FLAGS3,
    SPRITE_B,
    SPRITE_C,
    SPRITE_E,
    SPRITE_SUBTYPE2,
    SPRITE_Z,
    SPRITE_DELAY_MAIN,
    SPRITE_DRAW_I,
    SPRITE_IGNORE_PROJECTILE,
];
pub const CACHED_SPRITE_ALT_FIELDS: [usize; 24] = [
    ALT_SPRITE_STATE,
    ALT_SPRITE_TYPE,
    ALT_SPRITE_X_LO,
    ALT_SPRITE_X_HI,
    ALT_SPRITE_Y_LO,
    ALT_SPRITE_Y_HI,
    ALT_SPRITE_GRAPHICS,
    ALT_SPRITE_A,
    ALT_SPRITE_HEAD_DIR,
    ALT_SPRITE_OAM_FLAGS,
    ALT_SPRITE_OBJ_PRIO,
    ALT_SPRITE_D,
    ALT_SPRITE_FLAGS2,
    ALT_SPRITE_FLOOR,
    ALT_SPRITE_SPAWNED_FLAG,
    ALT_SPRITE_FLAGS3,
    ALT_SPRITE_B,
    ALT_SPRITE_C,
    ALT_SPRITE_E,
    ALT_SPRITE_SUBTYPE2,
    ALT_SPRITE_HEIGHT_ABOVE_SHADOW,
    ALT_SPRITE_DELAY_MAIN,
    ALT_SPRITE_I,
    ALT_SPRITE_IGNORE_PROJECTILE,
];

} // verus!
