//! Note mapping: MIDI note numbers, pitch classes and note names.

use vstd::prelude::*;
use vstd::string::*;

verus! {

/// Lowest MIDI note of the bank (C0).
pub const LOWEST_NOTE: u8 = 12;

/// Highest MIDI note of the bank (B8).
pub const HIGHEST_NOTE: u8 = 119;

/// Number of notes between [`LOWEST_NOTE`] and [`HIGHEST_NOTE`], both included.
pub const NOTE_COUNT: usize = 108;

/// Number of pitch classes in an octave (0 = C .. 11 = B).
pub const PITCH_CLASSES: usize = 12;

/// MIDI note of the tuning reference (A4).
pub const REFERENCE_NOTE: u8 = 69;

/// Frequency of the tuning reference in hertz.
pub const REFERENCE_HERTZ: u16 = 440;

/// The pitch class of a MIDI note: the note reduced modulo the octave.
pub open spec fn pitch_class_of(midi: int) -> int {
    midi % (PITCH_CLASSES as int)
}

/// Signed distance in equal-tempered semitones from the tuning reference.
pub open spec fn semitones_from_reference_of(midi: int) -> int {
    midi - REFERENCE_NOTE
}

/// Whether a MIDI note lies in the range the bank covers.
pub open spec fn in_bank_range(midi: int) -> bool {
    LOWEST_NOTE <= midi <= HIGHEST_NOTE
}

/// Pitch class (0 = C .. 11 = B) of a MIDI note.
pub fn pitch_class(midi: u8) -> (pc: u8)
    ensures
        pc as int == pitch_class_of(midi as int),
        pc < PITCH_CLASSES,
{
    midi % 12
}

/// Distance of a MIDI note from A4 in semitones; the frequency of the note is
/// the reference frequency times two to the power of a twelfth of this.
pub fn semitones_from_reference(midi: u8) -> (distance: i16)
    ensures
        distance as int == semitones_from_reference_of(midi as int),
{
    midi as i16 - REFERENCE_NOTE as i16
}

/// ASCII lower-case equivalent of a character; anything but `A`..`Z` is kept.
pub open spec fn fold_ascii(c: char) -> char {
    if 'A' <= c && c <= 'Z' {
        ((c as u32) + 32) as char
    } else {
        c
    }
}

/// A name with every character folded to ASCII lower case.
pub open spec fn fold_name(name: Seq<char>) -> Seq<char> {
    name.map_values(|c: char| fold_ascii(c))
}

/// Whether `s` is the one-character name `letter`.
pub open spec fn spells(s: Seq<char>, letter: char) -> bool {
    s.len() == 1 && s[0] == letter
}

/// Whether `s` is the two-character name `letter` followed by `mark`.
pub open spec fn spells_with(s: Seq<char>, letter: char, mark: char) -> bool {
    s.len() == 2 && s[0] == letter && s[1] == mark
}

/// The pitch class that a lower-case note name stands for. Sharps are written
/// `#`, flats `b`; enharmonic spellings share a class.
pub open spec fn class_of_folded(s: Seq<char>) -> Option<u8> {
    if spells(s, 'c') {
        Some(0u8)
    } else if spells_with(s, 'c', '#') || spells_with(s, 'd', 'b') {
        Some(1u8)
    } else if spells(s, 'd') {
        Some(2u8)
    } else if spells_with(s, 'd', '#') || spells_with(s, 'e', 'b') {
        Some(3u8)
    } else if spells(s, 'e') {
        Some(4u8)
    } else if spells(s, 'f') {
        Some(5u8)
    } else if spells_with(s, 'f', '#') || spells_with(s, 'g', 'b') {
        Some(6u8)
    } else if spells(s, 'g') {
        Some(7u8)
    } else if spells_with(s, 'g', '#') || spells_with(s, 'a', 'b') {
        Some(8u8)
    } else if spells(s, 'a') {
        Some(9u8)
    } else if spells_with(s, 'a', '#') || spells_with(s, 'b', 'b') {
        Some(10u8)
    } else if spells(s, 'b') || spells_with(s, 'c', 'b') {
        Some(11u8)
    } else {
        None
    }
}

/// The pitch class named by `name`, letter case ignored.
pub open spec fn note_index_of(name: Seq<char>) -> Option<u8> {
    class_of_folded(fold_name(name))
}

/// Pitch class of a natural note letter, upper or lower case.
fn letter_class(c: char) -> (class: Option<u8>)
    ensures
        class == class_of_folded(seq![fold_ascii(c)]),
{
    if c == 'c' || c == 'C' {
        Some(0u8)
    } else if c == 'd' || c == 'D' {
        Some(2u8)
    } else if c == 'e' || c == 'E' {
        Some(4u8)
    } else if c == 'f' || c == 'F' {
        Some(5u8)
    } else if c == 'g' || c == 'G' {
        Some(7u8)
    } else if c == 'a' || c == 'A' {
        Some(9u8)
    } else if c == 'b' || c == 'B' {
        Some(11u8)
    } else {
        None
    }
}

/// Converts a note name to its pitch class, counted in semitones from C.
///
/// Accepts the seven natural letters, the five sharps `c# d# f# g# a#`, the
/// five flats `db eb gb ab bb` and `cb`, in any letter case; every other
/// string gives `None`.
pub fn note_index(name: &str) -> (idx: Option<u8>)
    ensures
        idx == note_index_of(name@),
        idx matches Some(class) ==> class < 12,
{
    let len = name.unicode_len();
    if len == 1 {
        let letter = name.get_char(0);
        letter_class(letter)
    } else if len == 2 {
        let letter = name.get_char(0);
        let mark = name.get_char(1);
        if mark == '#' {
            if letter == 'c' || letter == 'C' {
                Some(1)
            } else if letter == 'd' || letter == 'D' {
                Some(3)
            } else if letter == 'f' || letter == 'F' {
                Some(6)
            } else if letter == 'g' || letter == 'G' {
                Some(8)
            } else if letter == 'a' || letter == 'A' {
                Some(10)
            } else {
                None
            }
        } else if mark == 'b' || mark == 'B' {
            if letter == 'd' || letter == 'D' {
                Some(1)
            } else if letter == 'e' || letter == 'E' {
                Some(3)
            } else if letter == 'g' || letter == 'G' {
                Some(6)
            } else if letter == 'a' || letter == 'A' {
                Some(8)
            } else if letter == 'b' || letter == 'B' {
                Some(10)
            } else if letter == 'c' || letter == 'C' {
                Some(11)
            } else {
                None
            }
        } else {
            None
        }
    } else {
        None
    }
}

} // verus!
