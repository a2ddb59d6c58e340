//! Field descriptors and the width / kind meaning of a type tag.

use vstd::prelude::*;
use crate::value::ValueKind;

verus! {

/// One schema entry: a field name together with the type tag that fixes how
/// many bytes the field occupies and how they are interpreted.
#[derive(Debug)]
pub struct FieldDescriptor {
    pub name: String,
    pub tag: String,
}

impl View for FieldDescriptor {
    type V = (Seq<char>, Seq<char>);

    open spec fn view(&self) -> (Seq<char>, Seq<char>) {
        (self.name@, self.tag@)
    }
}

impl FieldDescriptor {
    /// A descriptor with the given name and type tag.
    pub fn new(name: &str, tag: &str) -> (r: FieldDescriptor)
        ensures
            r@ == (name@, tag@),
    {
        FieldDescriptor { name: name.to_owned(), tag: tag.to_owned() }
    }
}

/// The (name, tag) pairs denoted by a sequence of descriptors.
pub open spec fn schema_model(s: Seq<FieldDescriptor>) -> Seq<(Seq<char>, Seq<char>)> {
    s.map_values(|fd: FieldDescriptor| fd@)
}

/// Width in bytes of a field with the given type tag, or `None` for an
/// unrecognized tag. The `"hzn"` tag marks the reserved 12-byte block: its
/// bytes are consumed but not numerically interpreted.
pub open spec fn spec_width_of(tag: Seq<char>) -> Option<usize> {
    if tag == "s32"@ {
        Some(4usize)
    } else if tag == "u32"@ {
        Some(4usize)
    } else if tag == "f32"@ {
        Some(4usize)
    } else if tag == "hzn"@ {
        Some(12usize)
    } else if tag == "u16"@ {
        Some(2usize)
    } else if tag == "u8"@ {
        Some(1usize)
    } else if tag == "s8"@ {
        Some(1usize)
    } else {
        None
    }
}

/// The value kind a field with the given type tag decodes to, or `None` for
/// an unrecognized tag or for the reserved block (which is not numerically
/// decoded).
pub open spec fn spec_tag_kind(tag: Seq<char>) -> Option<ValueKind> {
    if tag == "s32"@ {
        Some(ValueKind::Int32)
    } else if tag == "u32"@ {
        Some(ValueKind::UInt32)
    } else if tag == "f32"@ {
        Some(ValueKind::Float32)
    } else if tag == "u16"@ {
        Some(ValueKind::UInt16)
    } else if tag == "u8"@ {
        Some(ValueKind::UInt8)
    } else if tag == "s8"@ {
        Some(ValueKind::Int8)
    } else {
        None
    }
}

/// The seven recognized type tags are pairwise distinct character sequences.
pub proof fn lemma_tags_distinct()
    ensures
        "s32"@ != "u32"@,
        "s32"@ != "f32"@,
        "s32"@ != "hzn"@,
        "s32"@ != "u16"@,
        "s32"@ != "u8"@,
        "s32"@ != "s8"@,
        "u32"@ != "f32"@,
        "u32"@ != "hzn"@,
        "u32"@ != "u16"@,
        "u32"@ != "u8"@,
        "u32"@ != "s8"@,
        "f32"@ != "hzn"@,
        "f32"@ != "u16"@,
        "f32"@ != "u8"@,
        "f32"@ != "s8"@,
        "hzn"@ != "u16"@,
        "hzn"@ != "u8"@,
        "hzn"@ != "s8"@,
        "u16"@ != "u8"@,
        "u16"@ != "s8"@,
        "u8"@ != "s8"@,
{
    reveal_strlit("s32");
    reveal_strlit("u32");
    reveal_strlit("f32");
    reveal_strlit("hzn");
    reveal_strlit("u16");
    reveal_strlit("u8");
    reveal_strlit("s8");
    assert("s32"@.len() == 3 && "s32"@[0] == 's' && "s32"@[1] == '3');
    assert("u32"@.len() == 3 && "u32"@[0] == 'u' && "u32"@[1] == '3');
    assert("f32"@.len() == 3 && "f32"@[0] == 'f' && "f32"@[1] == '3');
    assert("hzn"@.len() == 3 && "hzn"@[0] == 'h' && "hzn"@[1] == 'z');
    assert("u16"@.len() == 3 && "u16"@[0] == 'u' && "u16"@[1] == '1');
    assert("u8"@.len() == 2 && "u8"@[0] == 'u' && "u8"@[1] == '8');
    assert("s8"@.len() == 2 && "s8"@[0] == 's' && "s8"@[1] == '8');
}

/// The (name, tag) pair of entry `i` of the fixed telemetry schema.
pub open spec fn spec_field(i: int) -> (Seq<char>, Seq<char>) {
    if i == 0 {
        ("IsRaceOn"@, "s32"@)
    } else if i == 1 {
        ("TimestampMS"@, "u32"@)
    } else if i == 2 {
        ("EngineMaxRpm"@, "f32"@)
    } else if i == 3 {
        ("EngineIdleRpm"@, "f32"@)
    } else if i == 4 {
        ("CurrentEngineRpm"@, "f32"@)
    } else if i == 5 {
        ("AccelerationX"@, "f32"@)
    } else if i == 6 {
        ("AccelerationY"@, "f32"@)
    } else if i == 7 {
        ("AccelerationZ"@, "f32"@)
    } else if i == 8 {
        ("VelocityX"@, "f32"@)
    } else if i == 9 {
        ("VelocityY"@, "f32"@)
    } else if i == 10 {
        ("VelocityZ"@, "f32"@)
    } else if i == 11 {
        ("AngularVelocityX"@, "f32"@)
    } else if i == 12 {
        ("AngularVelocityY"@, "f32"@)
    } else if i == 13 {
        ("AngularVelocityZ"@, "f32"@)
    } else if i == 14 {
        ("Yaw"@, "f32"@)
    } else if i == 15 {
        ("Pitch"@, "f32"@)
    } else if i == 16 {
        ("Roll"@, "f32"@)
    } else if i == 17 {
        ("NormalizedSuspensionTravelFrontLeft"@, "f32"@)
    } else if i == 18 {
        ("NormalizedSuspensionTravelFrontRight"@, "f32"@)
    } else if i == 19 {
        ("NormalizedSuspensionTravelRearLeft"@, "f32"@)
    } else if i == 20 {
        ("NormalizedSuspensionTravelRearRight"@, "f32"@)
    } else if i == 21 {
        ("TireSlipRatioFrontLeft"@, "f32"@)
    } else if i == 22 {
        ("TireSlipRatioFrontRight"@, "f32"@)
    } else if i == 23 {
        ("TireSlipRatioRearLeft"@, "f32"@)
    } else if i == 24 {
        ("TireSlipRatioRearRight"@, "f32"@)
    } else if i == 25 {
        ("WheelRotationSpeedFrontLeft"@, "f32"@)
    } else if i == 26 {
        ("WheelRotationSpeedFrontRight"@, "f32"@)
    } else if i == 27 {
        ("WheelRotationSpeedRearLeft"@, "f32"@)
    } else if i == 28 {
        ("WheelRotationSpeedRearRight"@, "f32"@)
    } else if i == 29 {
        ("WheelOnRumbleStripFrontLeft"@, "s32"@)
    } else if i == 30 {
        ("WheelOnRumbleStripFrontRight"@, "s32"@)
    } else if i == 31 {
        ("WheelOnRumbleStripRearLeft"@, "s32"@)
    } else if i == 32 {
        ("WheelOnRumbleStripRearRight"@, "s32"@)
    } else if i == 33 {
        ("WheelInPuddleDepthFrontLeft"@, "f32"@)
    } else if i == 34 {
        ("WheelInPuddleDepthFrontRight"@, "f32"@)
    } else if i == 35 {
        ("WheelInPuddleDepthRearLeft"@, "f32"@)
    } else if i == 36 {
        ("WheelInPuddleDepthRearRight"@, "f32"@)
    } else if i == 37 {
        ("SurfaceRumbleFrontLeft"@, "f32"@)
    } else if i == 38 {
        ("SurfaceRumbleFrontRight"@, "f32"@)
    } else if i == 39 {
        ("SurfaceRumbleRearLeft"@, "f32"@)
    } else if i == 40 {
        ("SurfaceRumbleRearRight"@, "f32"@)
    } else if i == 41 {
        ("TireSlipAngleFrontLeft"@, "f32"@)
    } else if i == 42 {
        ("TireSlipAngleFrontRight"@, "f32"@)
    } else if i == 43 {
        ("TireSlipAngleRearLeft"@, "f32"@)
    } else if i == 44 {
        ("TireSlipAngleRearRight"@, "f32"@)
    } else if i == 45 {
        ("TireCombinedSlipFrontLeft"@, "f32"@)
    } else if i == 46 {
        ("TireCombinedSlipFrontRight"@, "f32"@)
    } else if i == 47 {
        ("TireCombinedSlipRearLeft"@, "f32"@)
    } else if i == 48 {
        ("TireCombinedSlipRearRight"@, "f32"@)
    } else if i == 49 {
        ("SuspensionTravelMetersFrontLeft"@, "f32"@)
    } else if i == 50 {
        ("SuspensionTravelMetersFrontRight"@, "f32"@)
    } else if i == 51 {
        ("SuspensionTravelMetersRearLeft"@, "f32"@)
    } else if i == 52 {
        ("SuspensionTravelMetersRearRight"@, "f32"@)
    } else if i == 53 {
        ("CarOrdinal"@, "s32"@)
    } else if i == 54 {
        ("CarClass"@, "s32"@)
    } else if i == 55 {
        ("CarPerformanceIndex"@, "s32"@)
    } else if i == 56 {
        ("DrivetrainType"@, "s32"@)
    } else if i == 57 {
        ("NumCylinders"@, "s32"@)
    } else if i == 58 {
        ("HorizonPlaceholder"@, "hzn"@)
    } else if i == 59 {
        ("PositionX"@, "f32"@)
    } else if i == 60 {
        ("PositionY"@, "f32"@)
    } else if i == 61 {
        ("PositionZ"@, "f32"@)
    } else if i == 62 {
        ("Speed"@, "f32"@)
    } else if i == 63 {
        ("Power"@, "f32"@)
    } else if i == 64 {
        ("Torque"@, "f32"@)
    } else if i == 65 {
        ("TireTempFrontLeft"@, "f32"@)
    } else if i == 66 {
        ("TireTempFrontRight"@, "f32"@)
    } else if i == 67 {
        ("TireTempRearLeft"@, "f32"@)
    } else if i == 68 {
        ("TireTempRearRight"@, "f32"@)
    } else if i == 69 {
        ("Boost"@, "f32"@)
    } else if i == 70 {
        ("Fuel"@, "f32"@)
    } else if i == 71 {
        ("DistanceTraveled"@, "f32"@)
    } else if i == 72 {
        ("BestLap"@, "f32"@)
    } else if i == 73 {
        ("LastLap"@, "f32"@)
    } else if i == 74 {
        ("CurrentLap"@, "f32"@)
    } else if i == 75 {
        ("CurrentRaceTime"@, "f32"@)
    } else if i == 76 {
        ("LapNumber"@, "u16"@)
    } else if i == 77 {
        ("RacePosition"@, "u8"@)
    } else if i == 78 {
        ("Accel"@, "u8"@)
    } else if i == 79 {
        ("Brake"@, "u8"@)
    } else if i == 80 {
        ("Clutch"@, "u8"@)
    } else if i == 81 {
        ("HandBrake"@, "u8"@)
    } else if i == 82 {
        ("Gear"@, "u8"@)
    } else if i == 83 {
        ("Steer"@, "s8"@)
    } else if i == 84 {
        ("NormalizedDrivingLine"@, "s8"@)
    } else if i == 85 {
        ("NormalizedAIBrakeDifference"@, "s8"@)
    } else {
        (""@, ""@)
    }
}

/// The fixed telemetry schema: the ordered (name, tag) layout of one
/// datagram.
pub open spec fn spec_schema() -> Seq<(Seq<char>, Seq<char>)> {
    Seq::new(86, |i: int| spec_field(i))
}

/// Append one descriptor to a schema under construction.
fn push_field(v: &mut Vec<FieldDescriptor>, name: &str, tag: &str)
    ensures
        schema_model(final(v)@) == schema_model(old(v)@).push((name@, tag@)),
{
    v.push(FieldDescriptor::new(name, tag));
    proof {
        assert(schema_model(v@) =~= schema_model(old(v)@).push((name@, tag@)));
    }
}

/// Build the fixed telemetry schema, in wire order.
#[verifier::rlimit(50)]
pub fn data_schema() -> (r: Vec<FieldDescriptor>)
    ensures
        schema_model(r@) == spec_schema(),
{
    let mut v: Vec<FieldDescriptor> = Vec::new();
    push_field(&mut v, "IsRaceOn", "s32");
    push_field(&mut v, "TimestampMS", "u32");
    push_field(&mut v, "EngineMaxRpm", "f32");
    push_field(&mut v, "EngineIdleRpm", "f32");
    push_field(&mut v, "CurrentEngineRpm", "f32");
    push_field(&mut v, "AccelerationX", "f32");
    push_field(&mut v, "AccelerationY", "f32");
    push_field(&mut v, "AccelerationZ", "f32");
    push_field(&mut v, "VelocityX", "f32");
    push_field(&mut v, "VelocityY", "f32");
    push_field(&mut v, "VelocityZ", "f32");
    push_field(&mut v, "AngularVelocityX", "f32");
    push_field(&mut v, "AngularVelocityY", "f32");
    push_field(&mut v, "AngularVelocityZ", "f32");
    push_field(&mut v, "Yaw", "f32");
    push_field(&mut v, "Pitch", "f32");
    push_field(&mut v, "Roll", "f32");
    push_field(&mut v, "NormalizedSuspensionTravelFrontLeft", "f32");
    push_field(&mut v, "NormalizedSuspensionTravelFrontRight", "f32");
    push_field(&mut v, "NormalizedSuspensionTravelRearLeft", "f32");
    push_field(&mut v, "NormalizedSuspensionTravelRearRight", "f32");
    push_field(&mut v, "TireSlipRatioFrontLeft", "f32");
    push_field(&mut v, "TireSlipRatioFrontRight", "f32");
    push_field(&mut v, "TireSlipRatioRearLeft", "f32");
    push_field(&mut v, "TireSlipRatioRearRight", "f32");
    push_field(&mut v, "WheelRotationSpeedFrontLeft", "f32");
    push_field(&mut v, "WheelRotationSpeedFrontRight", "f32");
    push_field(&mut v, "WheelRotationSpeedRearLeft", "f32");
    push_field(&mut v, "WheelRotationSpeedRearRight", "f32");
    push_field(&mut v, "WheelOnRumbleStripFrontLeft", "s32");
    push_field(&mut v, "WheelOnRumbleStripFrontRight", "s32");
    push_field(&mut v, "WheelOnRumbleStripRearLeft", "s32");
    push_field(&mut v, "WheelOnRumbleStripRearRight", "s32");
    push_field(&mut v, "WheelInPuddleDepthFrontLeft", "f32");
    push_field(&mut v, "WheelInPuddleDepthFrontRight", "f32");
    push_field(&mut v, "WheelInPuddleDepthRearLeft", "f32");
    push_field(&mut v, "WheelInPuddleDepthRearRight", "f32");
    push_field(&mut v, "SurfaceRumbleFrontLeft", "f32");
    push_field(&mut v, "SurfaceRumbleFrontRight", "f32");
    push_field(&mut v, "SurfaceRumbleRearLeft", "f32");
    push_field(&mut v, "SurfaceRumbleRearRight", "f32");
    push_field(&mut v, "TireSlipAngleFrontLeft", "f32");
    push_field(&mut v, "TireSlipAngleFrontRight", "f32");
    push_field(&mut v, "TireSlipAngleRearLeft", "f32");
    push_field(&mut v, "TireSlipAngleRearRight", "f32");
    push_field(&mut v, "TireCombinedSlipFrontLeft", "f32");
    push_field(&mut v, "TireCombinedSlipFrontRight", "f32");
    push_field(&mut v, "TireCombinedSlipRearLeft", "f32");
    push_field(&mut v, "TireCombinedSlipRearRight", "f32");
    push_field(&mut v, "SuspensionTravelMetersFrontLeft", "f32");
    push_field(&mut v, "SuspensionTravelMetersFrontRight", "f32");
    push_field(&mut v, "SuspensionTravelMetersRearLeft", "f32");
    push_field(&mut v, "SuspensionTravelMetersRearRight", "f32");
    push_field(&mut v, "CarOrdinal", "s32");
    push_field(&mut v, "CarClass", "s32");
    push_field(&mut v, "CarPerformanceIndex", "s32");
    push_field(&mut v, "DrivetrainType", "s32");
    push_field(&mut v, "NumCylinders", "s32");
    push_field(&mut v, "HorizonPlaceholder", "hzn");
    push_field(&mut v, "PositionX", "f32");
    push_field(&mut v, "PositionY", "f32");
    push_field(&mut v, "PositionZ", "f32");
    push_field(&mut v, "Speed", "f32");
    push_field(&mut v, "Power", "f32");
    push_field(&mut v, "Torque", "f32");
    push_field(&mut v, "TireTempFrontLeft", "f32");
    push_field(&mut v, "TireTempFrontRight", "f32");
    push_field(&mut v, "TireTempRearLeft", "f32");
    push_field(&mut v, "TireTempRearRight", "f32");
    push_field(&mut v, "Boost", "f32");
    push_field(&mut v, "Fuel", "f32");
    push_field(&mut v, "DistanceTraveled", "f32");
    push_field(&mut v, "BestLap", "f32");
    push_field(&mut v, "LastLap", "f32");
    push_field(&mut v, "CurrentLap", "f32");
    push_field(&mut v, "CurrentRaceTime", "f32");
    push_field(&mut v, "LapNumber", "u16");
    push_field(&mut v, "RacePosition", "u8");
    push_field(&mut v, "Accel", "u8");
    push_field(&mut v, "Brake", "u8");
    push_field(&mut v, "Clutch", "u8");
    push_field(&mut v, "HandBrake", "u8");
    push_field(&mut v, "Gear", "u8");
    push_field(&mut v, "Steer", "s8");
    push_field(&mut v, "NormalizedDrivingLine", "s8");
    push_field(&mut v, "NormalizedAIBrakeDifference", "s8");
    proof {
        assert(schema_model(v@) =~= spec_schema());
    }
    v
}

/// Whether two string slices hold the same characters.
pub fn str_eq(a: &str, b: &str) -> (r: bool)
    ensures
        r == (a@ == b@),
{
    let a_owned: String = a.to_owned();
    let b_owned: String = b.to_owned();
    a_owned == b_owned
}

} // verus!
