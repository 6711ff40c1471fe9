//! Frame codec for the serial motor-controller protocol.
//!
//! A request frame is `[0xAA, device_address, command, payload...]`.
//! 16-bit payload fields travel as two 7-bit bytes (the top bit of every
//! byte is reserved for framing), so only values up to `0x3FFF` are
//! representable. Responses are raw bytes: two for a position read
//! (combined as `(msb << 8) | lsb`), one for the moving state.

use vstd::prelude::*;

use crate::errors::ActuatorError;

verus! {

/// First byte of every request frame.
pub const FRAME_HEADER: u8 = 0xAA;

/// Command byte: set a channel's target pulse width (quarter-microseconds).
pub const CMD_SET_TARGET: u8 = 0x04;

/// Command byte: set a channel's velocity limit.
pub const CMD_SET_SPEED: u8 = 0x07;

/// Command byte: set a channel's acceleration limit.
pub const CMD_SET_ACCEL: u8 = 0x09;

/// Command byte: request a channel's current position (2-byte response).
pub const CMD_GET_POSITION: u8 = 0x10;

/// Command byte: request the moving state (1-byte response).
pub const CMD_GET_MOVING_STATE: u8 = 0x13;

/// Largest value a 14-bit payload field can carry.
pub const MAX_PAYLOAD_VALUE: u16 = 0x3FFF;

/// Low 7-bit byte of a payload value.
pub open spec fn lsb7(v: u16) -> u8 {
    (v & 0x7F) as u8
}

/// High 7-bit byte of a payload value.
pub open spec fn msb7(v: u16) -> u8 {
    ((v >> 7) & 0x7F) as u8
}

/// Recombine the two 7-bit payload bytes of a 14-bit value.
pub open spec fn decode14_spec(lsb: u8, msb: u8) -> u16 {
    (((msb as u16) << 7) | (lsb as u16)) as u16
}

/// Splitting a value of the 14-bit payload domain into its two 7-bit
/// protocol bytes and recombining them gives the value back.
pub proof fn lemma_encode14_round_trip(v: u16)
    requires
        v <= MAX_PAYLOAD_VALUE,
    ensures
        decode14_spec(lsb7(v), msb7(v)) == v,
{
    assert(((((((v >> 7) & 0x7F) as u8) as u16) << 7) | (((v & 0x7F) as u8) as u16)) == v)
        by (bit_vector)
        requires
            v <= 0x3FFF,
    ;
}

/// Split a 14-bit value into its two 7-bit protocol bytes, low byte first.
pub fn encode14(v: u16) -> (r: (u8, u8))
    requires
        v <= MAX_PAYLOAD_VALUE,
    ensures
        r.0 == lsb7(v),
        r.1 == msb7(v),
        decode14_spec(r.0, r.1) == v,
{
    proof {
        lemma_encode14_round_trip(v);
    }
    ((v & 0x7F) as u8, ((v >> 7) & 0x7F) as u8)
}

/// Recombine two 7-bit protocol bytes, low byte first.
pub fn decode14(lsb: u8, msb: u8) -> (v: u16)
    ensures
        v == decode14_spec(lsb, msb),
{
    ((msb as u16) << 7) | (lsb as u16)
}

/// User-facing link configuration: the device path of the serial port, the
/// controller's address byte, and the target range the board accepts.
pub struct MaestroSettings {
    pub port: String,
    pub device: u8,
    pub min_target: u16,
    pub max_target: u16,
}

impl MaestroSettings {
    /// The configuration is usable: a nonempty target range whose bounds
    /// the 14-bit payload encoding can carry.
    pub open spec fn wf(self) -> bool {
        self.min_target <= self.max_target && self.max_target <= MAX_PAYLOAD_VALUE
    }
}

/// The default link configuration: port `/dev/ttyACM0`, device address
/// `0x0C`, targets between 2000 and 10000 quarter-microseconds.
pub fn default_settings() -> (s: MaestroSettings)
    ensures
        s.port@ == "/dev/ttyACM0"@,
        s.device == 0x0C,
        s.min_target == 2000,
        s.max_target == 10000,
        s.wf(),
{
    MaestroSettings { port: "/dev/ttyACM0".to_owned(), device: 0x0C, min_target: 2000, max_target: 10000 }
}

/// Codec state of one motor-controller link: the controller's address byte
/// and the target range commands are clamped to. Channel state lives on the
/// remote board; the codec only builds and parses frames.
#[derive(Debug, PartialEq, Eq, Structural, Clone, Copy)]
pub struct Maestro {
    pub device: u8,
    pub min_target: u16,
    pub max_target: u16,
}

/// A target clamped into the link's accepted range.
pub open spec fn clamp_target_spec(target: u16, min_target: u16, max_target: u16) -> u16 {
    if target < min_target {
        min_target
    } else if target > max_target {
        max_target
    } else {
        target
    }
}

impl Maestro {
    /// The codec's target range is nonempty and 14-bit representable.
    pub open spec fn wf(self) -> bool {
        self.min_target <= self.max_target && self.max_target <= MAX_PAYLOAD_VALUE
    }

    /// The frame this codec builds around a command payload.
    pub open spec fn frame_spec(self, payload: Seq<u8>) -> Seq<u8> {
        seq![FRAME_HEADER, self.device] + payload
    }

    /// Codec with the default settings (device address `0x0C`, targets
    /// between 2000 and 10000).
    pub fn new() -> (m: Maestro)
        ensures
            m.device == 0x0C,
            m.min_target == 2000,
            m.max_target == 10000,
            m.wf(),
    {
        let s = default_settings();
        Maestro::new_with_settings(&s)
    }

    /// Codec with the caller's settings.
    pub fn new_with_settings(settings: &MaestroSettings) -> (m: Maestro)
        ensures
            m.device == settings.device,
            m.min_target == settings.min_target,
            m.max_target == settings.max_target,
            settings.wf() ==> m.wf(),
    {
        Maestro { device: settings.device, min_target: settings.min_target, max_target: settings.max_target }
    }

    /// Frame commanding a channel's target pulse width. The target is
    /// clamped into the link's accepted range before encoding.
    pub fn set_target_frame(&self, channel: u8, target: u16) -> (f: Vec<u8>)
        requires
            self.wf(),
        ensures
            f@ == self.frame_spec(
                seq![
                    CMD_SET_TARGET,
                    channel,
                    lsb7(clamp_target_spec(target, self.min_target, self.max_target)),
                    msb7(clamp_target_spec(target, self.min_target, self.max_target)),
                ],
            ),
    {
        let mut t = target;
        if t < self.min_target {
            t = self.min_target;
        }
        if t > self.max_target {
            t = self.max_target;
        }
        let (lsb, msb) = encode14(t);
        let f: Vec<u8> = vec![FRAME_HEADER, self.device, CMD_SET_TARGET, channel, lsb, msb];
        assert(f@ =~= self.frame_spec(
            seq![
                CMD_SET_TARGET,
                channel,
                lsb7(clamp_target_spec(target, self.min_target, self.max_target)),
                msb7(clamp_target_spec(target, self.min_target, self.max_target)),
            ],
        ));
        f
    }

    /// Frame commanding a channel's velocity limit. A speed the 14-bit
    /// payload cannot carry is rejected.
    pub fn set_speed_frame(&self, channel: u8, speed: u16) -> (r: Result<Vec<u8>, ActuatorError>)
        ensures
            r is Ok <==> speed <= MAX_PAYLOAD_VALUE,
            r is Ok ==> r.unwrap()@ == self.frame_spec(
                seq![CMD_SET_SPEED, channel, lsb7(speed), msb7(speed)],
            ),
            r is Err ==> r.unwrap_err() == ActuatorError::Range,
    {
        if speed > MAX_PAYLOAD_VALUE {
            return Err(ActuatorError::Range);
        }
        let (lsb, msb) = encode14(speed);
        let f: Vec<u8> = vec![FRAME_HEADER, self.device, CMD_SET_SPEED, channel, lsb, msb];
        assert(f@ =~= self.frame_spec(seq![CMD_SET_SPEED, channel, lsb7(speed), msb7(speed)]));
        Ok(f)
    }

    /// Frame commanding a channel's acceleration limit. An acceleration the
    /// 14-bit payload cannot carry is rejected.
    pub fn set_accel_frame(&self, channel: u8, accel: u16) -> (r: Result<Vec<u8>, ActuatorError>)
        ensures
            r is Ok <==> accel <= MAX_PAYLOAD_VALUE,
            r is Ok ==> r.unwrap()@ == self.frame_spec(
                seq![CMD_SET_ACCEL, channel, lsb7(accel), msb7(accel)],
            ),
            r is Err ==> r.unwrap_err() == ActuatorError::Range,
    {
        if accel > MAX_PAYLOAD_VALUE {
            return Err(ActuatorError::Range);
        }
        let (lsb, msb) = encode14(accel);
        let f: Vec<u8> = vec![FRAME_HEADER, self.device, CMD_SET_ACCEL, channel, lsb, msb];
        assert(f@ =~= self.frame_spec(seq![CMD_SET_ACCEL, channel, lsb7(accel), msb7(accel)]));
        Ok(f)
    }

    /// Frame requesting a channel's current position; the board answers
    /// with exactly two bytes.
    pub fn get_position_frame(&self, channel: u8) -> (f: Vec<u8>)
        ensures
            f@ == self.frame_spec(seq![CMD_GET_POSITION, channel]),
    {
        let f: Vec<u8> = vec![FRAME_HEADER, self.device, CMD_GET_POSITION, channel];
        assert(f@ =~= self.frame_spec(seq![CMD_GET_POSITION, channel]));
        f
    }

    /// Frame requesting the moving state; the board answers with exactly
    /// one byte.
    pub fn get_moving_state_frame(&self) -> (f: Vec<u8>)
        ensures
            f@ == self.frame_spec(seq![CMD_GET_MOVING_STATE]),
    {
        let f: Vec<u8> = vec![FRAME_HEADER, self.device, CMD_GET_MOVING_STATE];
        assert(f@ =~= self.frame_spec(seq![CMD_GET_MOVING_STATE]));
        f
    }
}

/// The position a 2-byte response carries: `(msb << 8) | lsb`, low byte
/// first on the wire.
pub open spec fn position_value_spec(lsb: u8, msb: u8) -> u16 {
    (((msb as u16) << 8) | (lsb as u16)) as u16
}

/// Parse the response to a position request. Exactly two bytes are owed;
/// anything else is a protocol failure.
pub fn decode_position_response(buf: &Vec<u8>) -> (r: Result<u16, ActuatorError>)
    ensures
        r is Ok <==> buf@.len() == 2,
        r is Ok ==> r.unwrap() == position_value_spec(buf@[0], buf@[1]),
        r is Err ==> r.unwrap_err() == ActuatorError::Protocol,
{
    if buf.len() != 2 {
        return Err(ActuatorError::Protocol);
    }
    let lsb = buf[0];
    let msb = buf[1];
    Ok(((msb as u16) << 8) | (lsb as u16))
}

/// Parse the response to a moving-state request: one byte is owed, nonzero
/// meaning at least one channel has not reached its target.
pub fn decode_moving_response(buf: &Vec<u8>) -> (r: Result<bool, ActuatorError>)
    ensures
        r is Ok <==> buf@.len() == 1,
        r is Ok ==> r.unwrap() == (buf@[0] != 0),
        r is Err ==> r.unwrap_err() == ActuatorError::Protocol,
{
    if buf.len() != 1 {
        return Err(ActuatorError::Protocol);
    }
    Ok(buf[0] != 0)
}

} // verus!
