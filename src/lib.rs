//! A verified boundary layer for a handle-based media-player C API.
//!
//! The native library is reached through a single opaque context: commands are
//! sent as one text line, properties are read and written through untyped
//! buffers tagged with a numeric format code, and every failure comes back as an
//! integer status. This crate holds the part of that boundary that decides
//! things: how host values are staged for the native side and read back from
//! it, how statuses become errors, how command lines are assembled, and the
//! order in which a context is started and a batch of files is loaded. The
//! native calls themselves are made by the caller, who hands the statuses back.

mod command;
mod convenience;
mod error;
mod events;
mod format;
mod lifecycle;
mod marshal;
mod playlist;
mod text;

pub use command::{
    command_buffer, command_tokens, decimal, digits, join_tokens, lemma_command_text_shape,
    quoted, utf8_tokens, CommandArgs, MINUS, QUOTE, SPACE, ZERO,
};
pub use convenience::{indexed_tokens, screenshot_tokens, subtitle_extras, utf8};
pub use error::{mpv_err, Error, MpvError, Result};
pub use events::{
    all_event_ids, deprecated_event_ids, deprecated_ids, enabled_event_ids, enabled_ids, EventId,
    LAST_EVENT_ID,
};
pub use format::{
    lemma_native_code_injective, native_code, Format, MpvFormat, MPV_FORMAT_DOUBLE,
    MPV_FORMAT_FLAG, MPV_FORMAT_INT64, MPV_FORMAT_STRING,
};
pub use lifecycle::{
    lemma_failed_start_cleans_up, lemma_version_mismatch_stops, startup_calls, Startup,
    StartupCall, StartupEvent, MPV_CLIENT_API_VERSION,
};
pub use marshal::{
    lemma_double_round_trip, lemma_flag_round_trip, lemma_int64_round_trip,
    lemma_string_round_trip, get_property_request, read_text, set_property_request, staged_text,
    view_result, DoubleBits, GetData, NativeData, NativeValue, PropertyRead, PropertyWrite,
    SetData,
};
pub use playlist::{
    file_state_word, lemma_load_stops_at_first_failure, load_run, load_step, loadfile_command,
    FileState, LoadSession, LoadState,
};
pub use text::{c_string, decode_text, is_c_string, nul_free, MpvStr};
