//! Typed views over the game's work RAM, grouped by subsystem.

pub mod access;
pub mod addresses;
pub mod laws;
pub mod frame_control;
pub mod system_signals;
pub mod display_nmi;
pub mod player_state;
pub mod special_exit_position;
pub mod swim_acceleration;
pub mod bg1_move_calc;
pub mod tile_detect_position;
pub mod pushed_block;
pub mod player_tile_attribute;
pub mod inventory_state;
pub mod save_progress;
pub mod player_resources;
pub mod mirror_warp_scratch;
pub mod world_state;
pub mod dungeon_state;
pub mod dungeon_entrance_backup;
pub mod dungeon_header;
pub mod dungeon_key_slots;
pub mod dungeon_torch;
pub mod scratch_word;
pub mod ending_scratch;
pub mod save_load_scratch;
pub mod dungeon_map_scratch;
pub mod temp_counter;
pub mod dungeon_secret_scratch;
pub mod overworld_event_info;
pub mod overworld_config_table;
pub mod palette_buffer;
pub mod palette_filter;
pub mod hud_state;
pub mod hud_inventory_order;
pub mod graphics_scratch;
pub mod dungeon_map;
pub mod overworld_screen_size;
pub mod overworld_map16_decode;
pub mod room_bounds;
pub mod vram_upload_data;
pub mod poly_state;
pub mod poly_projected_vertex;
pub mod poly_face_coords;
pub mod poly_raster_edge;
pub mod intro_actor;
pub mod effect_angle_scratch;
pub mod quake_bolt;
pub mod quake_spell_scratch;
pub mod bombos_fire_column;
pub mod bombos_blast;
pub mod bombos_spell_scratch;
pub mod tower_seal_orbit;
pub mod tower_seal_sparkle;
pub mod tower_seal_scratch;
pub mod blast_wall_explosion;
pub mod blast_wall_fragment;
pub mod blast_wall_fireball;
pub mod blast_wall_scratch;
pub mod skull_woods_fire;
pub mod skull_woods_fire_scratch;
pub mod happiness_pond_rupee;
pub mod weather_vane_state;
pub mod weather_vane_debris;
pub mod bird_travel_destination;
pub mod bird_travel_status;
pub mod moldorm_history;
pub mod swamola_target;
pub mod swamola_history;
pub mod beamos_laser_history;
pub mod lanmola_segment_motion;
pub mod door_debris;
pub mod digging_game_prize;
pub mod draw_scratch_position;
pub mod hitbox_scratch_offset;
pub mod overworld_scroll_delta;
pub mod ppu_scroll_copy;
pub mod attract_state;
pub mod attract_vram_target;
pub mod dialogue_message_index;
pub mod multiselect_choice;
pub mod dialogue_number;
pub mod messaging_state;
pub mod messaging_text;
pub mod messaging_render_buffer;
pub mod vwf_glyph_spacing;
pub mod dialogue_source_offset;
pub mod select_file_scratch;
pub mod follower_state;
pub mod tagalong_slot;
pub mod arrghus_puff_home;
pub mod armos_knight_home;
pub mod cached_sprite_slot;
pub mod sprite_system;
pub mod sprite_workspace;
pub mod enemy_damage_data;
pub mod ether_orbit;
pub mod prize_drop_cycle;
pub mod dual_layer_tile_cache;
pub mod sprite_slot;
pub mod ancilla_slot;
pub mod overlord_slot;
pub mod overworld_sprite_presence;
pub mod overworld_sprite_loaded;
pub mod garnish_slot;
pub mod garnish_state;
pub mod oam_state;
pub mod archery_game;
pub mod minigame_state;
pub mod sprite_battle;
pub mod shared_message_timer;
pub mod intro_state;
pub mod ending_credit_state;
pub mod intro_sword;
