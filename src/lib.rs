//! Verified core of a speech-to-text and input-event helper: engine
//! configuration, transcript reduction, sample decoding policy, input-event
//! normalization and command routing.

pub mod command;
pub mod config;
pub mod events;
pub mod keys;
pub mod transcript;
pub mod waveform;

pub use command::{parse_command, paste_chord, Command, KeyAction, Modifier, Platform};
pub use config::{
    build_config, build_config_for_host, clamp_threads, eq_ignore_ascii_case, resolve_language,
    LanguageMode, RecognitionConfig, RecognitionOptions,
};
pub use events::{
    decimal_text, format_button, normalize_event, signed_decimal_text, EventKind, MouseButton,
    NormalizedEvent, RawEvent, RawEventKind, Timestamp,
};
pub use keys::{format_key, is_fn_key_pressed, FnKeyProbe};
pub use transcript::{join_with_spaces, transcript_from_segments};
pub use waveform::{samples_or_silence, FULL_SCALE};
