//! Decoding of telemetry packets.
//!
//! A packet is the 226 bytes of one record: its fields one after another in a
//! fixed order, without padding, every multi-byte number least significant
//! byte first. Nothing but the length is checked; any tag is accepted.

use vstd::prelude::*;
use crate::telemetry::{FloatBits, TelemetryData};
use crate::wire::{
    begins_with, flag_at, flag_byte, le_u32, le_u64, lemma_begins_with_byte,
    lemma_begins_with_less, lemma_begins_with_own_head, lemma_begins_with_u32,
    lemma_begins_with_u64, lemma_le_u32_same_bytes, lemma_le_u64_same_bytes,
    lemma_u32_round_trip, lemma_u64_round_trip, put_flag, put_u32, put_u64, put_u8, read_flag,
    read_u32, read_u64, read_u8, u32_le_bytes, u64_le_bytes,
};

verus! {

/// The length of one record on the wire.
pub const RECORD_LEN: usize = 226;

/// Where in a packet the current gear index stands.
pub const GEAR_INDEX_OFFSET: usize = 25;

/// Why a buffer was not decoded.
#[derive(Clone, Copy, Debug, PartialEq, Eq, Structural)]
pub enum DecodeError {
    /// The buffer holds fewer bytes than one record.
    TooShort,
}

/// The single-precision field whose four bytes start at `at`.
pub open spec fn float_at(s: Seq<u8>, at: int) -> FloatBits {
    FloatBits { bits: le_u32(s, at) }
}

/// The record laid out at the start of `s`: each field with its offset.
pub open spec fn record_at(s: Seq<u8>) -> TelemetryData {
    TelemetryData {
        // Packet header
        packet_4cc: le_u32(s, 0),
        packet_uid: le_u64(s, 4),
        // Shift-light cue
        shiftlights_fraction: float_at(s, 12),
        shiftlights_rpm_start: float_at(s, 16),
        shiftlights_rpm_end: float_at(s, 20),
        shiftlights_rpm_valid: flag_at(s, 24),
        // Gear state
        vehicle_gear_index: s[25],
        vehicle_gear_index_neutral: s[26],
        vehicle_gear_index_reverse: s[27],
        vehicle_gear_maximum: s[28],
        // Speed
        vehicle_speed: float_at(s, 29),
        vehicle_transmission_speed: float_at(s, 33),
        // Kinematics: position, velocity, acceleration
        vehicle_position_x: float_at(s, 37),
        vehicle_position_y: float_at(s, 41),
        vehicle_position_z: float_at(s, 45),
        vehicle_velocity_x: float_at(s, 49),
        vehicle_velocity_y: float_at(s, 53),
        vehicle_velocity_z: float_at(s, 57),
        vehicle_acceleration_x: float_at(s, 61),
        vehicle_acceleration_y: float_at(s, 65),
        vehicle_acceleration_z: float_at(s, 69),
        // Orientation basis: left, forward, up
        vehicle_left_direction_x: float_at(s, 73),
        vehicle_left_direction_y: float_at(s, 77),
        vehicle_left_direction_z: float_at(s, 81),
        vehicle_forward_direction_x: float_at(s, 85),
        vehicle_forward_direction_y: float_at(s, 89),
        vehicle_forward_direction_z: float_at(s, 93),
        vehicle_up_direction_x: float_at(s, 97),
        vehicle_up_direction_y: float_at(s, 101),
        vehicle_up_direction_z: float_at(s, 105),
        // Suspension, per wheel: back left, back right, front left, front right
        vehicle_hub_position_bl: float_at(s, 109),
        vehicle_hub_position_br: float_at(s, 113),
        vehicle_hub_position_fl: float_at(s, 117),
        vehicle_hub_position_fr: float_at(s, 121),
        vehicle_hub_velocity_bl: float_at(s, 125),
        vehicle_hub_velocity_br: float_at(s, 129),
        vehicle_hub_velocity_fl: float_at(s, 133),
        vehicle_hub_velocity_fr: float_at(s, 137),
        // Contact-patch speed, per wheel
        vehicle_cp_forward_speed_bl: float_at(s, 141),
        vehicle_cp_forward_speed_br: float_at(s, 145),
        vehicle_cp_forward_speed_fl: float_at(s, 149),
        vehicle_cp_forward_speed_fr: float_at(s, 153),
        // Brake temperature, per wheel
        vehicle_brake_temperature_bl: float_at(s, 157),
        vehicle_brake_temperature_br: float_at(s, 161),
        vehicle_brake_temperature_fl: float_at(s, 165),
        vehicle_brake_temperature_fr: float_at(s, 169),
        // Engine
        vehicle_engine_rpm_max: float_at(s, 173),
        vehicle_engine_rpm_idle: float_at(s, 177),
        vehicle_engine_rpm_current: float_at(s, 181),
        // Driver inputs
        vehicle_throttle: float_at(s, 185),
        vehicle_brake: float_at(s, 189),
        vehicle_clutch: float_at(s, 193),
        vehicle_steering: float_at(s, 197),
        vehicle_handbrake: flag_at(s, 201),
        // Session and stage timing
        game_total_time: float_at(s, 202),
        game_delta_time: float_at(s, 206),
        game_frame_count: le_u32(s, 210),
        stage_current_time: float_at(s, 214),
        stage_current_distance: float_at(s, 218),
        stage_length: float_at(s, 222),
    }
}

/// What decoding a buffer gives: the record at its start when it holds at
/// least one record's worth of bytes, and `TooShort` otherwise. Bytes beyond
/// the record are ignored.
pub open spec fn decode(buffer: Seq<u8>) -> Result<TelemetryData, DecodeError> {
    if buffer.len() < RECORD_LEN {
        Err(DecodeError::TooShort)
    } else {
        Ok(record_at(buffer))
    }
}

/// Reads a single-precision field.
fn read_float(buffer: &[u8], offset: usize) -> (value: FloatBits)
    requires
        offset + 4 <= buffer.len(),
    ensures
        value == float_at(buffer@, offset as int),
{
    FloatBits { bits: read_u32(buffer, offset) }
}

/// Decodes one telemetry packet.
///
/// The fields are read in wire order from the start of the buffer. A buffer
/// shorter than a record is refused whole: no partly filled record is ever
/// returned.
pub fn parse_packet(buffer: &[u8]) -> (result: Result<TelemetryData, DecodeError>)
    ensures
        result == decode(buffer@),
        result is Err <==> buffer@.len() < RECORD_LEN,
{
    if buffer.len() < RECORD_LEN {
        return Err(DecodeError::TooShort);
    }
    let mut offset: usize = 0;

    let packet_4cc = read_u32(buffer, offset);
    offset += 4;
    let packet_uid = read_u64(buffer, offset);
    offset += 8;
    let shiftlights_fraction = read_float(buffer, offset);
    offset += 4;
    let shiftlights_rpm_start = read_float(buffer, offset);
    offset += 4;
    let shiftlights_rpm_end = read_float(buffer, offset);
    offset += 4;
    let shiftlights_rpm_valid = read_flag(buffer, offset);
    offset += 1;
    let vehicle_gear_index = read_u8(buffer, offset);
    offset += 1;
    let vehicle_gear_index_neutral = read_u8(buffer, offset);
    offset += 1;
    let vehicle_gear_index_reverse = read_u8(buffer, offset);
    offset += 1;
    let vehicle_gear_maximum = read_u8(buffer, offset);
    offset += 1;
    let vehicle_speed = read_float(buffer, offset);
    offset += 4;
    let vehicle_transmission_speed = read_float(buffer, offset);
    offset += 4;
    let vehicle_position_x = read_float(buffer, offset);
    offset += 4;
    let vehicle_position_y = read_float(buffer, offset);
    offset += 4;
    let vehicle_position_z = read_float(buffer, offset);
    offset += 4;
    let vehicle_velocity_x = read_float(buffer, offset);
    offset += 4;
    let vehicle_velocity_y = read_float(buffer, offset);
    offset += 4;
    let vehicle_velocity_z = read_float(buffer, offset);
    offset += 4;
    let vehicle_acceleration_x = read_float(buffer, offset);
    offset += 4;
    let vehicle_acceleration_y = read_float(buffer, offset);
    offset += 4;
    let vehicle_acceleration_z = read_float(buffer, offset);
    offset += 4;
    let vehicle_left_direction_x = read_float(buffer, offset);
    offset += 4;
    let vehicle_left_direction_y = read_float(buffer, offset);
    offset += 4;
    let vehicle_left_direction_z = read_float(buffer, offset);
    offset += 4;
    let vehicle_forward_direction_x = read_float(buffer, offset);
    offset += 4;
    let vehicle_forward_direction_y = read_float(buffer, offset);
    offset += 4;
    let vehicle_forward_direction_z = read_float(buffer, offset);
    offset += 4;
    let vehicle_up_direction_x = read_float(buffer, offset);
    offset += 4;
    let vehicle_up_direction_y = read_float(buffer, offset);
    offset += 4;
    let vehicle_up_direction_z = read_float(buffer, offset);
    offset += 4;
    let vehicle_hub_position_bl = read_float(buffer, offset);
    offset += 4;
    let vehicle_hub_position_br = read_float(buffer, offset);
    offset += 4;
    let vehicle_hub_position_fl = read_float(buffer, offset);
    offset += 4;
    let vehicle_hub_position_fr = read_float(buffer, offset);
    offset += 4;
    let vehicle_hub_velocity_bl = read_float(buffer, offset);
    offset += 4;
    let vehicle_hub_velocity_br = read_float(buffer, offset);
    offset += 4;
    let vehicle_hub_velocity_fl = read_float(buffer, offset);
    offset += 4;
    let vehicle_hub_velocity_fr = read_float(buffer, offset);
    offset += 4;
    let vehicle_cp_forward_speed_bl = read_float(buffer, offset);
    offset += 4;
    let vehicle_cp_forward_speed_br = read_float(buffer, offset);
    offset += 4;
    let vehicle_cp_forward_speed_fl = read_float(buffer, offset);
    offset += 4;
    let vehicle_cp_forward_speed_fr = read_float(buffer, offset);
    offset += 4;
    let vehicle_brake_temperature_bl = read_float(buffer, offset);
    offset += 4;
    let vehicle_brake_temperature_br = read_float(buffer, offset);
    offset += 4;
    let vehicle_brake_temperature_fl = read_float(buffer, offset);
    offset += 4;
    let vehicle_brake_temperature_fr = read_float(buffer, offset);
    offset += 4;
    let vehicle_engine_rpm_max = read_float(buffer, offset);
    offset += 4;
    let vehicle_engine_rpm_idle = read_float(buffer, offset);
    offset += 4;
    let vehicle_engine_rpm_current = read_float(buffer, offset);
    offset += 4;
    let vehicle_throttle = read_float(buffer, offset);
    offset += 4;
    let vehicle_brake = read_float(buffer, offset);
    offset += 4;
    let vehicle_clutch = read_float(buffer, offset);
    offset += 4;
    let vehicle_steering = read_float(buffer, offset);
    offset += 4;
    let vehicle_handbrake = read_flag(buffer, offset);
    offset += 1;
    let game_total_time = read_float(buffer, offset);
    offset += 4;
    let game_delta_time = read_float(buffer, offset);
    offset += 4;
    let game_frame_count = read_u32(buffer, offset);
    offset += 4;
    let stage_current_time = read_float(buffer, offset);
    offset += 4;
    let stage_current_distance = read_float(buffer, offset);
    offset += 4;
    let stage_length = read_float(buffer, offset);

    Ok(
        TelemetryData {
            packet_4cc,
            packet_uid,
            shiftlights_fraction,
            shiftlights_rpm_start,
            shiftlights_rpm_end,
            shiftlights_rpm_valid,
            vehicle_gear_index,
            vehicle_gear_index_neutral,
            vehicle_gear_index_reverse,
            vehicle_gear_maximum,
            vehicle_speed,
            vehicle_transmission_speed,
            vehicle_position_x,
            vehicle_position_y,
            vehicle_position_z,
            vehicle_velocity_x,
            vehicle_velocity_y,
            vehicle_velocity_z,
            vehicle_acceleration_x,
            vehicle_acceleration_y,
            vehicle_acceleration_z,
            vehicle_left_direction_x,
            vehicle_left_direction_y,
            vehicle_left_direction_z,
            vehicle_forward_direction_x,
            vehicle_forward_direction_y,
            vehicle_forward_direction_z,
            vehicle_up_direction_x,
            vehicle_up_direction_y,
            vehicle_up_direction_z,
            vehicle_hub_position_bl,
            vehicle_hub_position_br,
            vehicle_hub_position_fl,
            vehicle_hub_position_fr,
            vehicle_hub_velocity_bl,
            vehicle_hub_velocity_br,
            vehicle_hub_velocity_fl,
            vehicle_hub_velocity_fr,
            vehicle_cp_forward_speed_bl,
            vehicle_cp_forward_speed_br,
            vehicle_cp_forward_speed_fl,
            vehicle_cp_forward_speed_fr,
            vehicle_brake_temperature_bl,
            vehicle_brake_temperature_br,
            vehicle_brake_temperature_fl,
            vehicle_brake_temperature_fr,
            vehicle_engine_rpm_max,
            vehicle_engine_rpm_idle,
            vehicle_engine_rpm_current,
            vehicle_throttle,
            vehicle_brake,
            vehicle_clutch,
            vehicle_steering,
            vehicle_handbrake,
            game_total_time,
            game_delta_time,
            game_frame_count,
            stage_current_time,
            stage_current_distance,
            stage_length,
        },
    )
}

/// The bytes of a record on the wire: its fields in order, a set flag as one
/// and a clear flag as zero.
pub open spec fn packet_bytes(record: TelemetryData) -> Seq<u8> {
    Seq::<u8>::empty()
        + u32_le_bytes(record.packet_4cc)
        + u64_le_bytes(record.packet_uid)
        + u32_le_bytes(record.shiftlights_fraction.bits)
        + u32_le_bytes(record.shiftlights_rpm_start.bits)
        + u32_le_bytes(record.shiftlights_rpm_end.bits)
        + seq![flag_byte(record.shiftlights_rpm_valid)]
        + seq![record.vehicle_gear_index]
        + seq![record.vehicle_gear_index_neutral]
        + seq![record.vehicle_gear_index_reverse]
        + seq![record.vehicle_gear_maximum]
        + u32_le_bytes(record.vehicle_speed.bits)
        + u32_le_bytes(record.vehicle_transmission_speed.bits)
        + u32_le_bytes(record.vehicle_position_x.bits)
        + u32_le_bytes(record.vehicle_position_y.bits)
        + u32_le_bytes(record.vehicle_position_z.bits)
        + u32_le_bytes(record.vehicle_velocity_x.bits)
        + u32_le_bytes(record.vehicle_velocity_y.bits)
        + u32_le_bytes(record.vehicle_velocity_z.bits)
        + u32_le_bytes(record.vehicle_acceleration_x.bits)
        + u32_le_bytes(record.vehicle_acceleration_y.bits)
        + u32_le_bytes(record.vehicle_acceleration_z.bits)
        + u32_le_bytes(record.vehicle_left_direction_x.bits)
        + u32_le_bytes(record.vehicle_left_direction_y.bits)
        + u32_le_bytes(record.vehicle_left_direction_z.bits)
        + u32_le_bytes(record.vehicle_forward_direction_x.bits)
        + u32_le_bytes(record.vehicle_forward_direction_y.bits)
        + u32_le_bytes(record.vehicle_forward_direction_z.bits)
        + u32_le_bytes(record.vehicle_up_direction_x.bits)
        + u32_le_bytes(record.vehicle_up_direction_y.bits)
        + u32_le_bytes(record.vehicle_up_direction_z.bits)
        + u32_le_bytes(record.vehicle_hub_position_bl.bits)
        + u32_le_bytes(record.vehicle_hub_position_br.bits)
        + u32_le_bytes(record.vehicle_hub_position_fl.bits)
        + u32_le_bytes(record.vehicle_hub_position_fr.bits)
        + u32_le_bytes(record.vehicle_hub_velocity_bl.bits)
        + u32_le_bytes(record.vehicle_hub_velocity_br.bits)
        + u32_le_bytes(record.vehicle_hub_velocity_fl.bits)
        + u32_le_bytes(record.vehicle_hub_velocity_fr.bits)
        + u32_le_bytes(record.vehicle_cp_forward_speed_bl.bits)
        + u32_le_bytes(record.vehicle_cp_forward_speed_br.bits)
        + u32_le_bytes(record.vehicle_cp_forward_speed_fl.bits)
        + u32_le_bytes(record.vehicle_cp_forward_speed_fr.bits)
        + u32_le_bytes(record.vehicle_brake_temperature_bl.bits)
        + u32_le_bytes(record.vehicle_brake_temperature_br.bits)
        + u32_le_bytes(record.vehicle_brake_temperature_fl.bits)
        + u32_le_bytes(record.vehicle_brake_temperature_fr.bits)
        + u32_le_bytes(record.vehicle_engine_rpm_max.bits)
        + u32_le_bytes(record.vehicle_engine_rpm_idle.bits)
        + u32_le_bytes(record.vehicle_engine_rpm_current.bits)
        + u32_le_bytes(record.vehicle_throttle.bits)
        + u32_le_bytes(record.vehicle_brake.bits)
        + u32_le_bytes(record.vehicle_clutch.bits)
        + u32_le_bytes(record.vehicle_steering.bits)
        + seq![flag_byte(record.vehicle_handbrake)]
        + u32_le_bytes(record.game_total_time.bits)
        + u32_le_bytes(record.game_delta_time.bits)
        + u32_le_bytes(record.game_frame_count)
        + u32_le_bytes(record.stage_current_time.bits)
        + u32_le_bytes(record.stage_current_distance.bits)
        + u32_le_bytes(record.stage_length.bits)
}

/// Writes a record as one packet.
pub fn encode_packet(record: &TelemetryData) -> (bytes: Vec<u8>)
    ensures
        bytes@ == packet_bytes(*record),
        bytes@.len() == RECORD_LEN,
{
    let mut bytes: Vec<u8> = Vec::new();
    put_u32(&mut bytes, record.packet_4cc);
    put_u64(&mut bytes, record.packet_uid);
    put_u32(&mut bytes, record.shiftlights_fraction.bits);
    put_u32(&mut bytes, record.shiftlights_rpm_start.bits);
    put_u32(&mut bytes, record.shiftlights_rpm_end.bits);
    put_flag(&mut bytes, record.shiftlights_rpm_valid);
    put_u8(&mut bytes, record.vehicle_gear_index);
    put_u8(&mut bytes, record.vehicle_gear_index_neutral);
    put_u8(&mut bytes, record.vehicle_gear_index_reverse);
    put_u8(&mut bytes, record.vehicle_gear_maximum);
    put_u32(&mut bytes, record.vehicle_speed.bits);
    put_u32(&mut bytes, record.vehicle_transmission_speed.bits);
    put_u32(&mut bytes, record.vehicle_position_x.bits);
    put_u32(&mut bytes, record.vehicle_position_y.bits);
    put_u32(&mut bytes, record.vehicle_position_z.bits);
    put_u32(&mut bytes, record.vehicle_velocity_x.bits);
    put_u32(&mut bytes, record.vehicle_velocity_y.bits);
    put_u32(&mut bytes, record.vehicle_velocity_z.bits);
    put_u32(&mut bytes, record.vehicle_acceleration_x.bits);
    put_u32(&mut bytes, record.vehicle_acceleration_y.bits);
    put_u32(&mut bytes, record.vehicle_acceleration_z.bits);
    put_u32(&mut bytes, record.vehicle_left_direction_x.bits);
    put_u32(&mut bytes, record.vehicle_left_direction_y.bits);
    put_u32(&mut bytes, record.vehicle_left_direction_z.bits);
    put_u32(&mut bytes, record.vehicle_forward_direction_x.bits);
    put_u32(&mut bytes, record.vehicle_forward_direction_y.bits);
    put_u32(&mut bytes, record.vehicle_forward_direction_z.bits);
    put_u32(&mut bytes, record.vehicle_up_direction_x.bits);
    put_u32(&mut bytes, record.vehicle_up_direction_y.bits);
    put_u32(&mut bytes, record.vehicle_up_direction_z.bits);
    put_u32(&mut bytes, record.vehicle_hub_position_bl.bits);
    put_u32(&mut bytes, record.vehicle_hub_position_br.bits);
    put_u32(&mut bytes, record.vehicle_hub_position_fl.bits);
    put_u32(&mut bytes, record.vehicle_hub_position_fr.bits);
    put_u32(&mut bytes, record.vehicle_hub_velocity_bl.bits);
    put_u32(&mut bytes, record.vehicle_hub_velocity_br.bits);
    put_u32(&mut bytes, record.vehicle_hub_velocity_fl.bits);
    put_u32(&mut bytes, record.vehicle_hub_velocity_fr.bits);
    put_u32(&mut bytes, record.vehicle_cp_forward_speed_bl.bits);
    put_u32(&mut bytes, record.vehicle_cp_forward_speed_br.bits);
    put_u32(&mut bytes, record.vehicle_cp_forward_speed_fl.bits);
    put_u32(&mut bytes, record.vehicle_cp_forward_speed_fr.bits);
    put_u32(&mut bytes, record.vehicle_brake_temperature_bl.bits);
    put_u32(&mut bytes, record.vehicle_brake_temperature_br.bits);
    put_u32(&mut bytes, record.vehicle_brake_temperature_fl.bits);
    put_u32(&mut bytes, record.vehicle_brake_temperature_fr.bits);
    put_u32(&mut bytes, record.vehicle_engine_rpm_max.bits);
    put_u32(&mut bytes, record.vehicle_engine_rpm_idle.bits);
    put_u32(&mut bytes, record.vehicle_engine_rpm_current.bits);
    put_u32(&mut bytes, record.vehicle_throttle.bits);
    put_u32(&mut bytes, record.vehicle_brake.bits);
    put_u32(&mut bytes, record.vehicle_clutch.bits);
    put_u32(&mut bytes, record.vehicle_steering.bits);
    put_flag(&mut bytes, record.vehicle_handbrake);
    put_u32(&mut bytes, record.game_total_time.bits);
    put_u32(&mut bytes, record.game_delta_time.bits);
    put_u32(&mut bytes, record.game_frame_count);
    put_u32(&mut bytes, record.stage_current_time.bits);
    put_u32(&mut bytes, record.stage_current_distance.bits);
    put_u32(&mut bytes, record.stage_length.bits);
    proof {
        lemma_packet_len(*record);
    }
    bytes
}

/// A packet is exactly one record long.
pub proof fn lemma_packet_len(record: TelemetryData)
    ensures
        packet_bytes(record).len() == RECORD_LEN,
{
    assert forall|x: u32| #[trigger] u32_le_bytes(x).len() == 4 by {
        lemma_u32_round_trip(x);
    }
    assert forall|x: u64| #[trigger] u64_le_bytes(x).len() == 8 by {
        lemma_u64_round_trip(x);
    }
}

/// Round trip: a buffer that starts with the bytes of a record decodes to
/// that record, whatever follows them.
pub proof fn lemma_decode_inverts_encode(record: TelemetryData, rest: Seq<u8>)
    ensures
        decode(packet_bytes(record) + rest) == Ok::<TelemetryData, DecodeError>(record),
{
    let s = packet_bytes(record) + rest;
    lemma_packet_len(record);
    lemma_begins_with_own_head(packet_bytes(record), rest);
    // The packet was built by appending field after field, so `s` begins with
    // every stage of that build, and each stage ends in the field it added.
    assert forall|x: u32| #[trigger] u32_le_bytes(x).len() == 4 by {
        lemma_u32_round_trip(x);
    }
    assert forall|x: u64| #[trigger] u64_le_bytes(x).len() == 8 by {
        lemma_u64_round_trip(x);
    }
    assert forall|head: Seq<u8>, more: Seq<u8>| #[trigger]
        begins_with(s, head + more) implies begins_with(s, head) by {
        lemma_begins_with_less(s, head, more);
    }
    assert forall|head: Seq<u8>, byte: u8| #[trigger]
        begins_with(s, head + seq![byte]) implies s[head.len() as int] == byte by {
        lemma_begins_with_byte(s, head, byte);
    }
    assert forall|head: Seq<u8>, x: u32| #[trigger]
        begins_with(s, head + u32_le_bytes(x)) implies le_u32(s, head.len() as int) == x by {
        lemma_begins_with_u32(s, head, x);
    }
    assert forall|head: Seq<u8>, x: u64| #[trigger]
        begins_with(s, head + u64_le_bytes(x)) implies le_u64(s, head.len() as int) == x by {
        lemma_begins_with_u64(s, head, x);
    }
    assert(record_at(s) == record);
}

/// Decoding is a function of the buffer alone: buffers that hold the same
/// bytes decode to the same record, or fail alike.
pub proof fn lemma_decode_is_pure(buffer: Seq<u8>, again: Seq<u8>)
    requires
        buffer =~= again,
    ensures
        decode(buffer) == decode(again),
{
}

/// Only the bytes of the record count: two buffers that are long enough and
/// agree on their first `RECORD_LEN` bytes decode to the same record.
pub proof fn lemma_decode_reads_record_only(a: Seq<u8>, b: Seq<u8>)
    requires
        a.len() >= RECORD_LEN,
        b.len() >= RECORD_LEN,
        a.subrange(0, RECORD_LEN as int) == b.subrange(0, RECORD_LEN as int),
    ensures
        decode(a) == decode(b),
{
    assert forall|at: int| 0 <= at < RECORD_LEN implies a[at] == b[at] by {
        assert(a[at] == a.subrange(0, RECORD_LEN as int)[at]);
        assert(b[at] == b.subrange(0, RECORD_LEN as int)[at]);
    }
    assert forall|at: int| 0 <= at && at + 4 <= RECORD_LEN implies #[trigger] le_u32(a, at)
        == le_u32(b, at) by {
        assert(a.subrange(at, at + 4) =~= b.subrange(at, at + 4));
        lemma_le_u32_same_bytes(a, at, b, at);
    }
    assert forall|at: int| 0 <= at && at + 8 <= RECORD_LEN implies #[trigger] le_u64(a, at)
        == le_u64(b, at) by {
        assert(a.subrange(at, at + 8) =~= b.subrange(at, at + 8));
        lemma_le_u64_same_bytes(a, at, b, at);
    }
    assert(record_at(a) == record_at(b));
}

} // verus!
