//! The telemetry record: one snapshot of the simulation's state.

use vstd::prelude::*;

verus! {

/// A single-precision IEEE-754 number kept as its 32-bit pattern.
///
/// The record carries measurements through without computing on them, so the
/// pattern is all it needs. Two values are equal when their patterns are: a
/// NaN equals itself, and the two zeros differ.
#[derive(Clone, Copy, Debug, PartialEq, Eq, Structural)]
pub struct FloatBits {
    pub bits: u32,
}

/// One snapshot of the simulation, field for field as the simulation sends it.
///
/// A record is built whole by the decoder and not changed afterwards.
#[derive(Clone, Copy, Debug, PartialEq, Eq, Structural)]
pub struct TelemetryData {
    // Packet header
    pub packet_4cc: u32,
    pub packet_uid: u64,
    // Shift-light cue
    pub shiftlights_fraction: FloatBits,
    pub shiftlights_rpm_start: FloatBits,
    pub shiftlights_rpm_end: FloatBits,
    pub shiftlights_rpm_valid: bool,
    // Gear state
    pub vehicle_gear_index: u8,
    pub vehicle_gear_index_neutral: u8,
    pub vehicle_gear_index_reverse: u8,
    pub vehicle_gear_maximum: u8,
    // Speed
    pub vehicle_speed: FloatBits,
    pub vehicle_transmission_speed: FloatBits,
    // Kinematics: position, velocity, acceleration
    pub vehicle_position_x: FloatBits,
    pub vehicle_position_y: FloatBits,
    pub vehicle_position_z: FloatBits,
    pub vehicle_velocity_x: FloatBits,
    pub vehicle_velocity_y: FloatBits,
    pub vehicle_velocity_z: FloatBits,
    pub vehicle_acceleration_x: FloatBits,
    pub vehicle_acceleration_y: FloatBits,
    pub vehicle_acceleration_z: FloatBits,
    // Orientation basis: left, forward, up
    pub vehicle_left_direction_x: FloatBits,
    pub vehicle_left_direction_y: FloatBits,
    pub vehicle_left_direction_z: FloatBits,
    pub vehicle_forward_direction_x: FloatBits,
    pub vehicle_forward_direction_y: FloatBits,
    pub vehicle_forward_direction_z: FloatBits,
    pub vehicle_up_direction_x: FloatBits,
    pub vehicle_up_direction_y: FloatBits,
    pub vehicle_up_direction_z: FloatBits,
    // Suspension, per wheel: back left, back right, front left, front right
    pub vehicle_hub_position_bl: FloatBits,
    pub vehicle_hub_position_br: FloatBits,
    pub vehicle_hub_position_fl: FloatBits,
    pub vehicle_hub_position_fr: FloatBits,
    pub vehicle_hub_velocity_bl: FloatBits,
    pub vehicle_hub_velocity_br: FloatBits,
    pub vehicle_hub_velocity_fl: FloatBits,
    pub vehicle_hub_velocity_fr: FloatBits,
    // Contact-patch speed, per wheel
    pub vehicle_cp_forward_speed_bl: FloatBits,
    pub vehicle_cp_forward_speed_br: FloatBits,
    pub vehicle_cp_forward_speed_fl: FloatBits,
    pub vehicle_cp_forward_speed_fr: FloatBits,
    // Brake temperature, per wheel
    pub vehicle_brake_temperature_bl: FloatBits,
    pub vehicle_brake_temperature_br: FloatBits,
    pub vehicle_brake_temperature_fl: FloatBits,
    pub vehicle_brake_temperature_fr: FloatBits,
    // Engine
    pub vehicle_engine_rpm_max: FloatBits,
    pub vehicle_engine_rpm_idle: FloatBits,
    pub vehicle_engine_rpm_current: FloatBits,
    // Driver inputs
    pub vehicle_throttle: FloatBits,
    pub vehicle_brake: FloatBits,
    pub vehicle_clutch: FloatBits,
    pub vehicle_steering: FloatBits,
    pub vehicle_handbrake: bool,
    // Session and stage timing
    pub game_total_time: FloatBits,
    pub game_delta_time: FloatBits,
    pub game_frame_count: u32,
    pub stage_current_time: FloatBits,
    pub stage_current_distance: FloatBits,
    pub stage_length: FloatBits,
}

impl TelemetryData {
    /// The record whose every field is zero: what is held before any packet
    /// has arrived.
    pub open spec fn zero() -> TelemetryData {
        TelemetryData {
            packet_4cc: 0,
            packet_uid: 0,
            shiftlights_fraction: FloatBits { bits: 0 },
            shiftlights_rpm_start: FloatBits { bits: 0 },
            shiftlights_rpm_end: FloatBits { bits: 0 },
            shiftlights_rpm_valid: false,
            vehicle_gear_index: 0,
            vehicle_gear_index_neutral: 0,
            vehicle_gear_index_reverse: 0,
            vehicle_gear_maximum: 0,
            vehicle_speed: FloatBits { bits: 0 },
            vehicle_transmission_speed: FloatBits { bits: 0 },
            vehicle_position_x: FloatBits { bits: 0 },
            vehicle_position_y: FloatBits { bits: 0 },
            vehicle_position_z: FloatBits { bits: 0 },
            vehicle_velocity_x: FloatBits { bits: 0 },
            vehicle_velocity_y: FloatBits { bits: 0 },
            vehicle_velocity_z: FloatBits { bits: 0 },
            vehicle_acceleration_x: FloatBits { bits: 0 },
            vehicle_acceleration_y: FloatBits { bits: 0 },
            vehicle_acceleration_z: FloatBits { bits: 0 },
            vehicle_left_direction_x: FloatBits { bits: 0 },
            vehicle_left_direction_y: FloatBits { bits: 0 },
            vehicle_left_direction_z: FloatBits { bits: 0 },
            vehicle_forward_direction_x: FloatBits { bits: 0 },
            vehicle_forward_direction_y: FloatBits { bits: 0 },
            vehicle_forward_direction_z: FloatBits { bits: 0 },
            vehicle_up_direction_x: FloatBits { bits: 0 },
            vehicle_up_direction_y: FloatBits { bits: 0 },
            vehicle_up_direction_z: FloatBits { bits: 0 },
            vehicle_hub_position_bl: FloatBits { bits: 0 },
            vehicle_hub_position_br: FloatBits { bits: 0 },
            vehicle_hub_position_fl: FloatBits { bits: 0 },
            vehicle_hub_position_fr: FloatBits { bits: 0 },
            vehicle_hub_velocity_bl: FloatBits { bits: 0 },
            vehicle_hub_velocity_br: FloatBits { bits: 0 },
            vehicle_hub_velocity_fl: FloatBits { bits: 0 },
            vehicle_hub_velocity_fr: FloatBits { bits: 0 },
            vehicle_cp_forward_speed_bl: FloatBits { bits: 0 },
            vehicle_cp_forward_speed_br: FloatBits { bits: 0 },
            vehicle_cp_forward_speed_fl: FloatBits { bits: 0 },
            vehicle_cp_forward_speed_fr: FloatBits { bits: 0 },
            vehicle_brake_temperature_bl: FloatBits { bits: 0 },
            vehicle_brake_temperature_br: FloatBits { bits: 0 },
            vehicle_brake_temperature_fl: FloatBits { bits: 0 },
            vehicle_brake_temperature_fr: FloatBits { bits: 0 },
            vehicle_engine_rpm_max: FloatBits { bits: 0 },
            vehicle_engine_rpm_idle: FloatBits { bits: 0 },
            vehicle_engine_rpm_current: FloatBits { bits: 0 },
            vehicle_throttle: FloatBits { bits: 0 },
            vehicle_brake: FloatBits { bits: 0 },
            vehicle_clutch: FloatBits { bits: 0 },
            vehicle_steering: FloatBits { bits: 0 },
            vehicle_handbrake: false,
            game_total_time: FloatBits { bits: 0 },
            game_delta_time: FloatBits { bits: 0 },
            game_frame_count: 0,
            stage_current_time: FloatBits { bits: 0 },
            stage_current_distance: FloatBits { bits: 0 },
            stage_length: FloatBits { bits: 0 },
        }
    }
}

impl Default for TelemetryData {
    fn default() -> (record: TelemetryData)
        ensures
            record == TelemetryData::zero(),
    {
        TelemetryData {
            packet_4cc: 0,
            packet_uid: 0,
            shiftlights_fraction: FloatBits { bits: 0 },
            shiftlights_rpm_start: FloatBits { bits: 0 },
            shiftlights_rpm_end: FloatBits { bits: 0 },
            shiftlights_rpm_valid: false,
            vehicle_gear_index: 0,
            vehicle_gear_index_neutral: 0,
            vehicle_gear_index_reverse: 0,
            vehicle_gear_maximum: 0,
            vehicle_speed: FloatBits { bits: 0 },
            vehicle_transmission_speed: FloatBits { bits: 0 },
            vehicle_position_x: FloatBits { bits: 0 },
            vehicle_position_y: FloatBits { bits: 0 },
            vehicle_position_z: FloatBits { bits: 0 },
            vehicle_velocity_x: FloatBits { bits: 0 },
            vehicle_velocity_y: FloatBits { bits: 0 },
            vehicle_velocity_z: FloatBits { bits: 0 },
            vehicle_acceleration_x: FloatBits { bits: 0 },
            vehicle_acceleration_y: FloatBits { bits: 0 },
            vehicle_acceleration_z: FloatBits { bits: 0 },
            vehicle_left_direction_x: FloatBits { bits: 0 },
            vehicle_left_direction_y: FloatBits { bits: 0 },
            vehicle_left_direction_z: FloatBits { bits: 0 },
            vehicle_forward_direction_x: FloatBits { bits: 0 },
            vehicle_forward_direction_y: FloatBits { bits: 0 },
            vehicle_forward_direction_z: FloatBits { bits: 0 },
            vehicle_up_direction_x: FloatBits { bits: 0 },
            vehicle_up_direction_y: FloatBits { bits: 0 },
            vehicle_up_direction_z: FloatBits { bits: 0 },
            vehicle_hub_position_bl: FloatBits { bits: 0 },
            vehicle_hub_position_br: FloatBits { bits: 0 },
            vehicle_hub_position_fl: FloatBits { bits: 0 },
            vehicle_hub_position_fr: FloatBits { bits: 0 },
            vehicle_hub_velocity_bl: FloatBits { bits: 0 },
            vehicle_hub_velocity_br: FloatBits { bits: 0 },
            vehicle_hub_velocity_fl: FloatBits { bits: 0 },
            vehicle_hub_velocity_fr: FloatBits { bits: 0 },
            vehicle_cp_forward_speed_bl: FloatBits { bits: 0 },
            vehicle_cp_forward_speed_br: FloatBits { bits: 0 },
            vehicle_cp_forward_speed_fl: FloatBits { bits: 0 },
            vehicle_cp_forward_speed_fr: FloatBits { bits: 0 },
            vehicle_brake_temperature_bl: FloatBits { bits: 0 },
            vehicle_brake_temperature_br: FloatBits { bits: 0 },
            vehicle_brake_temperature_fl: FloatBits { bits: 0 },
            vehicle_brake_temperature_fr: FloatBits { bits: 0 },
            vehicle_engine_rpm_max: FloatBits { bits: 0 },
            vehicle_engine_rpm_idle: FloatBits { bits: 0 },
            vehicle_engine_rpm_current: FloatBits { bits: 0 },
            vehicle_throttle: FloatBits { bits: 0 },
            vehicle_brake: FloatBits { bits: 0 },
            vehicle_clutch: FloatBits { bits: 0 },
            vehicle_steering: FloatBits { bits: 0 },
            vehicle_handbrake: false,
            game_total_time: FloatBits { bits: 0 },
            game_delta_time: FloatBits { bits: 0 },
            game_frame_count: 0,
            stage_current_time: FloatBits { bits: 0 },
            stage_current_distance: FloatBits { bits: 0 },
            stage_length: FloatBits { bits: 0 },
        }
    }
}

} // verus!
