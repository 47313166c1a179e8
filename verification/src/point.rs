//! Point records and the labels of their enumerated attributes.

use vstd::prelude::*;
use vstd::string::*;

verus! {

/// The direction in which the scanner mirror travelled when the pulse left.
#[derive(Clone, Copy, Debug, PartialEq, Eq, Structural)]
pub enum ScanDirection {
    RightToLeft,
    LeftToRight,
}

impl ScanDirection {
    /// The text recorded for this direction in the `scan_direction` column.
    pub open spec fn label_spec(self) -> Seq<char> {
        match self {
            ScanDirection::LeftToRight => "LeftToRight"@,
            ScanDirection::RightToLeft => "RightToLeft"@,
        }
    }

    pub fn label(&self) -> (text: String)
        ensures
            text@ == self.label_spec(),
    {
        match self {
            ScanDirection::LeftToRight => String::from_str("LeftToRight"),
            ScanDirection::RightToLeft => String::from_str("RightToLeft"),
        }
    }
}

/// The ASPRS class code of ground points.
pub const GROUND: u8 = 2;

/// The class code that marks overlap points in the older point formats. It
/// is carried as a flag of the point and never as its classification.
pub const OVERLAP: u8 = 12;

/// The decimal digit of `d`, for `d` below ten.
pub open spec fn digit(d: nat) -> char {
    seq!['0', '1', '2', '3', '4', '5', '6', '7', '8', '9'][d as int]
}

/// The decimal numeral of `n`, without sign or padding.
pub open spec fn decimal(n: nat) -> Seq<char>
    decreases n,
{
    if n < 10 {
        seq![digit(n)]
    } else {
        decimal(n / 10).push(digit(n % 10))
    }
}

/// The name of the ASPRS class with the given code, as the
/// `classification` column records it. Code 12 is no class of its own
/// (see [`OVERLAP`]); it is listed with the reserved codes only to make
/// the function total.
pub open spec fn class_name(code: u8) -> Seq<char> {
    if code == 0 {
        "CreatedNeverClassified"@
    } else if code == 1 {
        "Unclassified"@
    } else if code == 2 {
        "Ground"@
    } else if code == 3 {
        "LowVegetation"@
    } else if code == 4 {
        "MediumVegetation"@
    } else if code == 5 {
        "HighVegetation"@
    } else if code == 6 {
        "Building"@
    } else if code == 7 {
        "LowPoint"@
    } else if code == 8 {
        "ModelKeyPoint"@
    } else if code == 9 {
        "Water"@
    } else if code == 10 {
        "Rail"@
    } else if code == 11 {
        "RoadSurface"@
    } else if code == 13 {
        "WireGuard"@
    } else if code == 14 {
        "WireConductor"@
    } else if code == 15 {
        "TransmissionTower"@
    } else if code == 16 {
        "WireStructureConnector"@
    } else if code == 17 {
        "BridgeDeck"@
    } else if code == 18 {
        "HighNoise"@
    } else if code <= 63 {
        "Reserved("@ + decimal(code as nat) + ")"@
    } else {
        "UserDefinable("@ + decimal(code as nat) + ")"@
    }
}

/// Formats the classification that `las::point::Classification::new` makes
/// of `code` with the `Debug` impl that `las` derives for it. The contract
/// claims that the text is the variant's name, followed for the reserved and
/// the user-definable codes by the code in decimal between parentheses.
/// `new` refuses code 12, which the precondition leaves out.
#[verifier::external_body]
fn las_class_name(code: u8) -> (name: String)
    requires
        code != OVERLAP,
    ensures
        name@ == class_name(code),
{
    format!("{:?}", las::point::Classification::new(code).unwrap())
}

/// An ASPRS point classification, held by its class code.
#[derive(Clone, Copy, Debug, PartialEq, Eq, Structural)]
pub struct Classification {
    code: u8,
}

impl Classification {
    #[verifier::type_invariant]
    spec fn valid(self) -> bool {
        self.code != OVERLAP
    }

    /// The class code.
    pub closed spec fn code_spec(self) -> u8 {
        self.code
    }

    /// The name recorded for this class in the `classification` column.
    pub open spec fn label_spec(self) -> Seq<char> {
        class_name(self.code_spec())
    }

    /// The classification with the given code; none for [`OVERLAP`].
    pub fn new(code: u8) -> (made: Option<Classification>)
        ensures
            made is None <==> code == OVERLAP,
            made matches Some(c) ==> c.code_spec() == code,
    {
        if code == OVERLAP {
            None
        } else {
            Some(Classification { code })
        }
    }

    #[verifier::when_used_as_spec(code_spec)]
    pub fn code(self) -> (code: u8)
        ensures
            code == self.code_spec(),
            code != OVERLAP,
    {
        proof {
            use_type_invariant(self);
        }
        self.code
    }

    pub fn is_ground(self) -> (ground: bool)
        ensures
            ground == (self.code_spec() == GROUND),
    {
        self.code == GROUND
    }

    pub fn label(self) -> (text: String)
        ensures
            text@ == self.label_spec(),
    {
        proof {
            use_type_invariant(self);
        }
        las_class_name(self.code)
    }
}

/// One sample of the point cloud. Coordinates, scan angle and GPS time are
/// doubles, carried here by their IEEE 754 bit patterns so that they pass
/// through unchanged.
#[derive(Clone, Copy, Debug)]
pub struct PointRecord {
    pub x: u64,
    pub y: u64,
    pub z: u64,
    pub intensity: u16,
    pub return_number: u8,
    pub number_of_returns: u8,
    pub scan_direction: ScanDirection,
    pub classification: Classification,
    pub scan_angle: u64,
    pub point_source_id: u16,
    pub gps_time: Option<u64>,
}

} // verus!
