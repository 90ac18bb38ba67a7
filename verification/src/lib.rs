//! A client library for the Barrier/Synergy keyboard-and-mouse sharing
//! protocol, together with the conversion of Synergy input events into USB
//! HID reports.
//!
//! The library holds the pure logic: the wire format of protocol packets, the
//! clipboard transfer state machine, the decisions a client takes for each
//! server packet, and the HID report bookkeeping. Network, serial and USB
//! input/output stay with the caller.
mod keycodes;
mod reports;
mod synergy_hid;
mod descriptors;
mod hid_laws;
mod error;
mod wire;
mod clipboard;
mod packet;
mod options;
mod packet_stream;
mod actuator;
mod session;
mod packet_laws;
mod transport;
mod config;

pub use keycodes::{
    lemma_key_table, lemma_printable_keys, lemma_unlisted_keys,
    spec_consumer_usage, spec_punctuation_usage, spec_special_usage, spec_synergy_mouse_button,
    spec_synergy_to_hid, synergy_mouse_button, synergy_to_hid, KeyCode, HID_KEY_0, HID_KEY_1,
    HID_KEY_A, HID_KEY_B, HID_KEY_CONTROL_LEFT, HID_KEY_F1, HID_KEY_GUI_RIGHT, HID_KEY_SPACE,
    HID_USAGE_CONSUMER_MUTE,
};
pub use reports::{
    free_slot, hi_byte, is_modifier_usage, lo_byte, modifier_bit, AbsMouseReport,
    ConsumerReport, KeyboardModel, KeyboardReport,
};
pub use synergy_hid::{
    clear_len, consumer_frame, key_down_len, keyboard_frame, mouse_frame, HidState, ReportType,
    SynergyHid, SERVER_BUTTONS,
};
pub use descriptors::{
    lemma_descriptor_bytes,
    consumer_descriptor, keyboard_descriptor, mouse_descriptor, report_descriptor, report_length,
};
pub use hid_laws::{
    has_room_for, holds_key, keys_distinct, lemma_frame_lengths, lemma_keys_stay_distinct,
    lemma_steps_keep_keys_distinct, lemma_key_down_up_restores,
    lemma_key_up_without_down_clears, lemma_mouse_down_up_restores, lemma_press_idempotent,
    lemma_press_release_restores, lemma_report_lengths, lemma_key_up_releases_recorded_key,
    lemma_pointer_position_remembered, lemma_pointer_events, lemma_key_events, lemma_keyboard_report,
    lemma_mouse_button_bits, lemma_initial_state, lemma_moved_position, lemma_descriptors,
    pointer_bytes, keyboard_bytes, consumer_bytes,
};
pub use options::{
    collect_options, has_name, lemma_collect_options, lemma_set_option, names_distinct, options_map,
    set_option, OptionEntry,
};
pub use error::{ActuatorError, ConnectionError, PacketError};
pub use wire::{
    be_u16_at, be_u16_bytes, be_u32_at, be_u32_bytes, lemma_be_u16_arith, lemma_be_u32_arith,
    lemma_be_u16_roundtrip,
    lemma_be_u32_roundtrip, push_bytes, push_u16, push_u32, read_u16, read_u32, read_u8,
};
pub use clipboard::{
    clipboard_entry, clipboard_step, decimal_digits, digits_value, is_ascii_digit,
    lemma_clipboard_empty, lemma_clipboard_stages, lemma_decimal_texts, lemma_parse_refusals,
    lemma_parse_three_formats, lemma_parse_joins_and_cuts, only_format, parse_clipboard,
    parse_decimal_u32, spec_clipboard_entries, spec_clipboard_step, spec_parse_clipboard,
    spec_parse_decimal_u32, utf8_lossy, ClipboardContents, ClipboardData, ClipboardStage,
    StageModel,
};
pub use packet::{
    lemma_packet_fields,
    code_frame, options_view, DeviceOption, Packet, PacketModel, CODE_CALV, CODE_CCLP, CODE_CIAK,
    CODE_CINN, CODE_CNOP, CODE_COUT, CODE_CROP, CODE_DCLP, CODE_DINF, CODE_DKDN, CODE_DKRP,
    CODE_DKUP, CODE_DMDN, CODE_DMMV, CODE_DMRM, CODE_DMUP, CODE_DMWM, CODE_DSOP, CODE_EUNK,
    CODE_QINF,
};
pub use packet_stream::{
    check_packet_size, decode_packet, fixed_packet, frame_str, option_at, result_view,
    spec_decode, spec_decode_clipboard, spec_decode_options, spec_decode_stateless,
    spec_frame_str, PacketStream,
};
pub use actuator::{lemma_message_fields, ActuatorMessage, MessageModel};
pub use session::{
    lemma_action_fields,
    check_hello, hello_magic, hello_reply, is_hello_magic, lemma_actions_per_packet,
    lemma_hello_magic_bytes, lemma_hello_reply_bytes, lemma_query_and_keepalive, length_bytes,
    reply_failed, stream_ended,
    lemma_replies_encodable, lemma_session_only_tracks_entries, spec_hello_reply, ActionModel,
    ClientAction, ClientSession, CLIENT_MAJOR, CLIENT_MINOR,
};
pub use packet_laws::{
    clipboard_chunk, lemma_clipboard_transfer, lemma_decode_short_chunk, lemma_wire_length_prefix, lemma_wire_read_roundtrip,
    lemma_decode_code_only, lemma_decode_key_packets, lemma_decode_pointer_packets,
    lemma_decode_screen_packets, lemma_decode_options, options_bytes, lemma_frame_str_bytes, lemma_wire_bytes, lemma_decode_short_bodies, lemma_decode_unknown, is_known_code,
};
pub use transport::{
    clipboard_text_update, find_port, hid_dev_number, lemma_clipboard_text_update,
    lemma_indicator_status_bytes, port_matches, serial_frame, is_device, lemma_find_port,
    spec_clipboard_text_update, spec_last_match, split_report, IndicatorStatus, SerialPortInfo,
    UsbPortInfo,
};
pub use config::{BarpiConfig, SerbarConfig};
