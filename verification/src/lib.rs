//! Verified core of a VT terminal: parser-side classification plans,
//! renderer color and mode policies, and the portable settings model.

pub mod vt;
pub mod input_control;
pub mod input_keymap;
pub mod output_csi_decps;
pub mod parser_ffi;
pub mod output_csi_column;
pub mod output_csi_decac;
pub mod output_csi_decrqcra;
pub mod output_csi_decrqtsr;
pub mod output_csi_kitty_keyboard_push;
pub mod output_csi_kitty_keyboard_query;
pub mod output_csi_kitty_keyboard_set;
pub mod output_csi_mode;
pub mod output_csi_push_sgr;
pub mod output_csi_rect_attributes;
pub mod output_csi_rep;
pub mod output_dcs;
pub mod output_osc;
pub mod parameter_view;
pub mod state_machine_ffi;
pub mod attribute_color_policy;
pub mod underline_color_policy;
pub mod render_settings_policy;
pub mod render_settings;
pub mod render_attribute_colors;
pub mod pty_signal;
pub mod text;
pub mod json;
pub mod keyed;
pub mod application_state;
pub mod settings_ffi;
pub mod theme;
pub mod new_tab_menu;
pub mod color_scheme;
pub mod profile_identity;
