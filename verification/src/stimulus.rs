//! The two stimulus channels: a cell of the 3×3 grid and a spoken letter.

use vstd::prelude::*;

verus! {

/// Number of grid cells a stimulus can light up.
pub const LOCATION_COUNT: u32 = 9;

/// Number of letters a stimulus can speak.
pub const AUDIO_COUNT: u32 = 8;

/// One of the eight letters played as the audio half of a stimulus.
#[derive(Clone, Copy, Debug, PartialEq, Eq, Structural, Hash)]
pub enum TargetAudio {
    C,
    H,
    K,
    L,
    Q,
    R,
    S,
    T,
}

/// One of the nine cells of the grid, row by row from the top left.
#[derive(Clone, Copy, Debug, PartialEq, Eq, Structural, Hash)]
pub enum TargetLocation {
    TopLeft,
    TopMiddle,
    TopRight,
    CenterLeft,
    CenterMiddle,
    CenterRight,
    BottomLeft,
    BottomMiddle,
    BottomRight,
}

/// What is presented in one trial: a grid cell together with a letter.
#[derive(Clone, Copy, Debug, PartialEq, Eq, Structural, Hash)]
pub struct Stimulus {
    pub location: TargetLocation,
    pub audio: TargetAudio,
}

impl TargetAudio {
    /// Position of the letter in the alphabetical list C, H, K, L, Q, R, S, T.
    pub open spec fn ordinal(self) -> nat {
        match self {
            TargetAudio::C => 0,
            TargetAudio::H => 1,
            TargetAudio::K => 2,
            TargetAudio::L => 3,
            TargetAudio::Q => 4,
            TargetAudio::R => 5,
            TargetAudio::S => 6,
            TargetAudio::T => 7,
        }
    }

    /// The letter at a position of the list, if the position is below eight.
    pub open spec fn at(i: nat) -> Option<TargetAudio> {
        if i == 0 {
            Some(TargetAudio::C)
        } else if i == 1 {
            Some(TargetAudio::H)
        } else if i == 2 {
            Some(TargetAudio::K)
        } else if i == 3 {
            Some(TargetAudio::L)
        } else if i == 4 {
            Some(TargetAudio::Q)
        } else if i == 5 {
            Some(TargetAudio::R)
        } else if i == 6 {
            Some(TargetAudio::S)
        } else if i == 7 {
            Some(TargetAudio::T)
        } else {
            None
        }
    }

    /// Position of the letter in the list of letters.
    pub fn index(self) -> (i: u32)
        ensures
            i == self.ordinal(),
            i < AUDIO_COUNT,
    {
        match self {
            TargetAudio::C => 0,
            TargetAudio::H => 1,
            TargetAudio::K => 2,
            TargetAudio::L => 3,
            TargetAudio::Q => 4,
            TargetAudio::R => 5,
            TargetAudio::S => 6,
            TargetAudio::T => 7,
        }
    }

    /// The letter at position `i`, or `None` when `i` is not below eight.
    pub fn from_index(i: u32) -> (audio: Option<TargetAudio>)
        ensures
            audio == Self::at(i as nat),
            audio is Some <==> i < AUDIO_COUNT,
            audio matches Some(a) ==> a.ordinal() == i,
    {
        match i {
            0 => Some(TargetAudio::C),
            1 => Some(TargetAudio::H),
            2 => Some(TargetAudio::K),
            3 => Some(TargetAudio::L),
            4 => Some(TargetAudio::Q),
            5 => Some(TargetAudio::R),
            6 => Some(TargetAudio::S),
            7 => Some(TargetAudio::T),
            _ => None,
        }
    }
}

impl TargetLocation {
    /// Row-major position of the cell: three times its row plus its column.
    pub open spec fn ordinal(self) -> nat {
        match self {
            TargetLocation::TopLeft => 0,
            TargetLocation::TopMiddle => 1,
            TargetLocation::TopRight => 2,
            TargetLocation::CenterLeft => 3,
            TargetLocation::CenterMiddle => 4,
            TargetLocation::CenterRight => 5,
            TargetLocation::BottomLeft => 6,
            TargetLocation::BottomMiddle => 7,
            TargetLocation::BottomRight => 8,
        }
    }

    /// The cell at a row-major position, if the position is below nine.
    pub open spec fn at(i: nat) -> Option<TargetLocation> {
        if i == 0 {
            Some(TargetLocation::TopLeft)
        } else if i == 1 {
            Some(TargetLocation::TopMiddle)
        } else if i == 2 {
            Some(TargetLocation::TopRight)
        } else if i == 3 {
            Some(TargetLocation::CenterLeft)
        } else if i == 4 {
            Some(TargetLocation::CenterMiddle)
        } else if i == 5 {
            Some(TargetLocation::CenterRight)
        } else if i == 6 {
            Some(TargetLocation::BottomLeft)
        } else if i == 7 {
            Some(TargetLocation::BottomMiddle)
        } else if i == 8 {
            Some(TargetLocation::BottomRight)
        } else {
            None
        }
    }

    /// Row of the cell, counted from the top: 0, 1 or 2.
    pub open spec fn row(self) -> int {
        self.ordinal() as int / 3
    }

    /// Column of the cell, counted from the left: 0, 1 or 2.
    pub open spec fn column(self) -> int {
        self.ordinal() as int % 3
    }

    /// Row-major position of the cell.
    pub fn index(self) -> (i: u32)
        ensures
            i == self.ordinal(),
            i < LOCATION_COUNT,
    {
        match self {
            TargetLocation::TopLeft => 0,
            TargetLocation::TopMiddle => 1,
            TargetLocation::TopRight => 2,
            TargetLocation::CenterLeft => 3,
            TargetLocation::CenterMiddle => 4,
            TargetLocation::CenterRight => 5,
            TargetLocation::BottomLeft => 6,
            TargetLocation::BottomMiddle => 7,
            TargetLocation::BottomRight => 8,
        }
    }

    /// The cell at row-major position `i`, or `None` when `i` is not below
    /// nine.
    pub fn from_index(i: u32) -> (location: Option<TargetLocation>)
        ensures
            location == Self::at(i as nat),
            location is Some <==> i < LOCATION_COUNT,
            location matches Some(l) ==> l.ordinal() == i,
    {
        match i {
            0 => Some(TargetLocation::TopLeft),
            1 => Some(TargetLocation::TopMiddle),
            2 => Some(TargetLocation::TopRight),
            3 => Some(TargetLocation::CenterLeft),
            4 => Some(TargetLocation::CenterMiddle),
            5 => Some(TargetLocation::CenterRight),
            6 => Some(TargetLocation::BottomLeft),
            7 => Some(TargetLocation::BottomMiddle),
            8 => Some(TargetLocation::BottomRight),
            _ => None,
        }
    }
}

/// The sound asset of a letter: `letters/`, the letter in lower case, `.wav`.
pub open spec fn sound_path(audio: TargetAudio) -> Seq<char> {
    match audio {
        TargetAudio::C => "letters/c.wav"@,
        TargetAudio::H => "letters/h.wav"@,
        TargetAudio::K => "letters/k.wav"@,
        TargetAudio::L => "letters/l.wav"@,
        TargetAudio::Q => "letters/q.wav"@,
        TargetAudio::R => "letters/r.wav"@,
        TargetAudio::S => "letters/s.wav"@,
        TargetAudio::T => "letters/t.wav"@,
    }
}

/// The path of the sound asset the host plays for a letter.
pub fn sound_file(audio: TargetAudio) -> (path: &'static str)
    ensures
        path@ == sound_path(audio),
{
    match audio {
        TargetAudio::C => "letters/c.wav",
        TargetAudio::H => "letters/h.wav",
        TargetAudio::K => "letters/k.wav",
        TargetAudio::L => "letters/l.wav",
        TargetAudio::Q => "letters/q.wav",
        TargetAudio::R => "letters/r.wav",
        TargetAudio::S => "letters/s.wav",
        TargetAudio::T => "letters/t.wav",
    }
}

/// Where a cell sits relative to the centre of the grid, in whole cells:
/// the first number grows to the right, the second grows upwards, and the
/// centre cell is at `(0, 0)`.
pub fn get_target_coordinates(target_location: TargetLocation) -> (offset: (i32, i32))
    ensures
        offset.0 == target_location.column() - 1,
        offset.1 == 1 - target_location.row(),
{
    match target_location {
        TargetLocation::TopLeft => (-1, 1),
        TargetLocation::TopMiddle => (0, 1),
        TargetLocation::TopRight => (1, 1),
        TargetLocation::CenterLeft => (-1, 0),
        TargetLocation::CenterMiddle => (0, 0),
        TargetLocation::CenterRight => (1, 0),
        TargetLocation::BottomLeft => (-1, -1),
        TargetLocation::BottomMiddle => (0, -1),
        TargetLocation::BottomRight => (1, -1),
    }
}

} // verus!
