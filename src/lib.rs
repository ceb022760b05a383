//! Rendering logic of a real-time audio visualizer: the piano-roll keyboard
//! strip, the oscilloscope and spectrum plots, and the scrolling waterfall.
//!
//! Every renderer here is a pure planner: it turns one analysis frame into the
//! exact list of shapes to paint, with coordinates and hues kept as exact
//! ratios, and leaves the painting itself to the embedder.

mod ratio;
mod keys;
mod spectrum;

pub use spectrum::{oscilloscope_trace, spectrum_bars, Bar, TracePoint};
mod waterfall;

pub use waterfall::{column_hue, Waterfall, WaterfallOp};

pub use ratio::Ratio;
pub use keys::{
    is_white_key, key_band, note_label, piano_keys, KeyBand, NoteName, MAX_MIDI_NOTE, MIDI_A4,
    MIN_MIDI_NOTE,
};


