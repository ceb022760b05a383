use vstd::prelude::*;
use crate::ratio::Ratio;

verus! {

/// Lowest key of the piano, A0.
pub const MIN_MIDI_NOTE: u8 = 21;

/// Highest key of the piano, C8.
pub const MAX_MIDI_NOTE: u8 = 108;

/// Concert A, 440 Hz.
pub const MIDI_A4: u8 = 69;

/// Number of keys drawn on the piano roll.
pub const KEY_COUNT: usize = 88;

/// Whether a note falls on a white key: the C-major positions 0, 2, 4, 5, 7, 9
/// and 11 of the octave.
pub open spec fn is_white_spec(note: int) -> bool {
    let k = note % 12;
    k == 0 || k == 2 || k == 4 || k == 5 || k == 7 || k == 9 || k == 11
}

/// A note name as drawn on the keyboard: a letter and an octave.
#[derive(Clone, Copy, Debug, PartialEq, Eq, Structural)]
pub struct NoteName {
    pub letter: char,
    pub octave: i8,
}

/// The label of a note: every C carries "C" and its octave, A4 carries "A4",
/// and no other note is labelled.
pub open spec fn label_spec(note: int) -> Option<NoteName> {
    if note % 12 == 0 {
        Some(NoteName { letter: 'C', octave: (note / 12 - 1) as i8 })
    } else if note == MIDI_A4 {
        Some(NoteName { letter: 'A', octave: 4 })
    } else {
        None
    }
}

/// One horizontal band of the keyboard strip, drawn `thickness` pixels high,
/// centred on the note's logarithmic position, `width` pixels wide from the
/// left edge.
#[derive(Clone, Copy, Debug, PartialEq, Eq, Structural)]
pub struct KeyBand {
    pub note: u8,
    pub white: bool,
    pub width: Ratio,
    pub thickness: u8,
    pub label: Option<NoteName>,
}

/// White keys span the whole strip and are two pixels thick; black keys span
/// three fifths of it and are one pixel thick.
pub open spec fn key_band_spec(note: int, strip_width: int) -> KeyBand {
    if is_white_spec(note) {
        KeyBand {
            note: note as u8,
            white: true,
            width: Ratio { num: strip_width as u64, den: 1 },
            thickness: 2,
            label: label_spec(note),
        }
    } else {
        KeyBand {
            note: note as u8,
            white: false,
            width: Ratio { num: (3 * strip_width) as u64, den: 5 },
            thickness: 1,
            label: None,
        }
    }
}

/// The bands of all piano keys, from A0 up to C8.
pub open spec fn piano_keys_spec(strip_width: int) -> Seq<KeyBand> {
    Seq::new(KEY_COUNT as nat, |i: int| key_band_spec(MIN_MIDI_NOTE + i, strip_width))
}

/// Classifies a note as a white or a black key.
pub fn is_white_key(note: u8) -> (r: bool)
    ensures
        r == is_white_spec(note as int),
{
    let k = note % 12;
    k == 0 || k == 2 || k == 4 || k == 5 || k == 7 || k == 9 || k == 11
}

/// The label drawn beside a note, if any.
pub fn note_label(note: u8) -> (r: Option<NoteName>)
    ensures
        r == label_spec(note as int),
{
    if note % 12 == 0 {
        let octave: i8 = (note / 12) as i8 - 1;
        Some(NoteName { letter: 'C', octave })
    } else if note == MIDI_A4 {
        Some(NoteName { letter: 'A', octave: 4 })
    } else {
        None
    }
}

/// The band drawn for one note on a strip `strip_width` pixels wide.
pub fn key_band(note: u8, strip_width: u32) -> (r: KeyBand)
    ensures
        r == key_band_spec(note as int, strip_width as int),
{
    if is_white_key(note) {
        KeyBand {
            note,
            white: true,
            width: Ratio::new(strip_width as u64, 1),
            thickness: 2,
            label: note_label(note),
        }
    } else {
        KeyBand {
            note,
            white: false,
            width: Ratio::new(3 * (strip_width as u64), 5),
            thickness: 1,
            label: None,
        }
    }
}

/// The bands of the whole keyboard strip, one per key from A0 to C8 in
/// ascending order.
pub fn piano_keys(strip_width: u32) -> (r: Vec<KeyBand>)
    ensures
        r@ == piano_keys_spec(strip_width as int),
        r@.len() == KEY_COUNT,
{
    let mut r: Vec<KeyBand> = Vec::new();
    let mut note: u8 = MIN_MIDI_NOTE;
    while note <= MAX_MIDI_NOTE
        invariant
            MIN_MIDI_NOTE <= note <= MAX_MIDI_NOTE + 1,
            r@ =~= piano_keys_spec(strip_width as int).take(note - MIN_MIDI_NOTE),
        decreases MAX_MIDI_NOTE + 1 - note,
    {
        let band = key_band(note, strip_width);
        r.push(band);
        note = note + 1;
    }
    assert(r@ =~= piano_keys_spec(strip_width as int));
    r
}

} // verus!
