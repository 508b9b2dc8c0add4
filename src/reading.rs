//! Decoding of notification frames into the monitor's reading.

use vstd::prelude::*;

verus! {

/// Standard heart-rate service identifier (0x180D in the Bluetooth base UUID).
pub const HEART_RATE_SERVICE: u128 = 0x0000180d_0000_1000_8000_00805f9b34fb;

/// Heart-rate measurement characteristic (0x2A37).
pub const HEART_RATE_MEASUREMENT_CHARACTERISTIC: u128 = 0x00002a37_0000_1000_8000_00805f9b34fb;

/// Battery level characteristic (0x2A19).
pub const BATTERY_LEVEL_CHARACTERISTIC: u128 = 0x00002a19_0000_1000_8000_00805f9b34fb;

/// Values reported by a worn heart-rate monitor.
#[derive(Debug, Clone, Copy, PartialEq, Eq, Structural)]
pub struct HrData {
    /// Heart rate in beats per minute.
    pub hr: u16,
    /// Skin contact: `None` when the sensor does not report contact at all.
    pub contact_ok: Option<bool>,
    /// Battery level in percent, once known.
    pub battery: Option<u8>,
}

/// State of the worn heart-rate monitor.
#[derive(Debug, Clone, Copy, PartialEq, Eq, Structural)]
pub enum HrmState {
    Disconnected,
    Connected(HrData),
}

impl Default for HrmState {
    fn default() -> (r: Self)
        ensures
            r == HrmState::Disconnected,
    {
        HrmState::Disconnected
    }
}

/// Byte `i` of a payload, where a missing byte reads as zero.
pub open spec fn byte_at(p: Seq<u8>, i: int) -> u8 {
    if 0 <= i < p.len() {
        p[i]
    } else {
        0u8
    }
}

/// Heart rate carried by a measurement frame: 16 bits little-endian after the
/// flags byte when bit 0 of the flags is set, otherwise the single byte after it.
pub open spec fn frame_heart_rate(p: Seq<u8>) -> u16 {
    if byte_at(p, 0) & 1u8 != 0 {
        (byte_at(p, 1) as int + 256 * (byte_at(p, 2) as int)) as u16
    } else {
        byte_at(p, 1) as u16
    }
}

/// Contact status carried by a measurement frame: bit 2 of the flags says
/// whether contact is reported, bit 1 then gives it.
pub open spec fn frame_contact(p: Seq<u8>) -> Option<bool> {
    if byte_at(p, 0) & 4u8 != 0 {
        Some(byte_at(p, 0) & 2u8 != 0)
    } else {
        None
    }
}

/// The reading a notification starts from: the current one, or an empty one
/// when the monitor was disconnected.
pub open spec fn base_reading(state: HrmState) -> HrData {
    match state {
        HrmState::Connected(d) => d,
        HrmState::Disconnected => HrData { hr: 0, contact_ok: None, battery: None },
    }
}

/// The reading after one frame from `characteristic`, before the battery
/// fallback is applied.
pub open spec fn frame_update(d: HrData, characteristic: u128, p: Seq<u8>) -> HrData {
    if characteristic == BATTERY_LEVEL_CHARACTERISTIC {
        HrData { battery: Some(byte_at(p, 0)), ..d }
    } else if characteristic == HEART_RATE_MEASUREMENT_CHARACTERISTIC {
        HrData { hr: frame_heart_rate(p), contact_ok: frame_contact(p), ..d }
    } else {
        d
    }
}

/// The state after a notification: the frame is applied to the current
/// reading, and a battery level still unknown falls back to the one read when
/// the session was set up.
pub open spec fn notification_result(
    state: HrmState,
    characteristic: u128,
    p: Seq<u8>,
    initial_battery: Option<u8>,
) -> HrmState {
    let d = frame_update(base_reading(state), characteristic, p);
    HrmState::Connected(
        if d.battery is None {
            HrData { battery: initial_battery, ..d }
        } else {
            d
        },
    )
}

fn byte_or_zero(p: &[u8], i: usize) -> (r: u8)
    ensures
        r == byte_at(p@, i as int),
{
    if i < p.len() {
        p[i]
    } else {
        0
    }
}

/// Decodes a heart-rate measurement frame into its heart rate and contact
/// status. Missing bytes read as zero.
pub fn decode_heart_rate(payload: &[u8]) -> (r: (u16, Option<bool>))
    ensures
        r.0 == frame_heart_rate(payload@),
        r.1 == frame_contact(payload@),
{
    let flags = byte_or_zero(payload, 0);
    let low = byte_or_zero(payload, 1);
    let hr: u16 = if flags & 1 != 0 {
        let high = byte_or_zero(payload, 2);
        low as u16 + 256 * (high as u16)
    } else {
        low as u16
    };
    let contact = if flags & 4 != 0 {
        Some(flags & 2 != 0)
    } else {
        None
    };
    (hr, contact)
}

/// Applies one notification frame from `characteristic` to `state`.
///
/// A battery frame sets the battery level, a measurement frame sets the heart
/// rate and contact status, and a frame from any other characteristic changes
/// no value. The result is always connected; a battery level that is still
/// unknown takes `initial_battery`.
pub fn apply_notification(
    state: &HrmState,
    characteristic: u128,
    payload: &[u8],
    initial_battery: Option<u8>,
) -> (r: HrmState)
    ensures
        r == notification_result(*state, characteristic, payload@, initial_battery),
{
    let mut d = match state {
        HrmState::Connected(d) => *d,
        HrmState::Disconnected => HrData { hr: 0, contact_ok: None, battery: None },
    };
    if characteristic == BATTERY_LEVEL_CHARACTERISTIC {
        d.battery = Some(byte_or_zero(payload, 0));
    } else if characteristic == HEART_RATE_MEASUREMENT_CHARACTERISTIC {
        let (hr, contact) = decode_heart_rate(payload);
        d.hr = hr;
        d.contact_ok = contact;
    }
    if d.battery.is_none() {
        d.battery = initial_battery;
    }
    HrmState::Connected(d)
}

/// A measurement frame is decoded from its bytes alone: from any two prior
/// states the same frame gives the same heart rate and contact status, and the
/// battery level is the one known before, or else the initial one.
pub proof fn lemma_measurement_independent_of_prior(
    s1: HrmState,
    s2: HrmState,
    p: Seq<u8>,
    initial_battery: Option<u8>,
)
    ensures
        ({
            let r1 = notification_result(s1, HEART_RATE_MEASUREMENT_CHARACTERISTIC, p, initial_battery);
            let r2 = notification_result(s2, HEART_RATE_MEASUREMENT_CHARACTERISTIC, p, initial_battery);
            &&& r1 is Connected
            &&& r2 is Connected
            &&& base_reading(r1).hr == frame_heart_rate(p)
            &&& base_reading(r2).hr == frame_heart_rate(p)
            &&& base_reading(r1).contact_ok == frame_contact(p)
            &&& base_reading(r2).contact_ok == frame_contact(p)
            &&& base_reading(r1).battery == if base_reading(s1).battery is Some {
                base_reading(s1).battery
            } else {
                initial_battery
            }
        }),
{
}

/// Contact status follows the flags byte: with bit 2 set and bit 1 clear the
/// sensor reports no contact, and with bit 2 clear contact is not reported.
pub proof fn lemma_contact_flags(s: HrmState, p: Seq<u8>, initial_battery: Option<u8>)
    ensures
        ({
            let d = base_reading(
                notification_result(s, HEART_RATE_MEASUREMENT_CHARACTERISTIC, p, initial_battery),
            );
            &&& (byte_at(p, 0) & 4u8 != 0 && byte_at(p, 0) & 2u8 == 0) ==> d.contact_ok == Some(false)
            &&& byte_at(p, 0) & 4u8 == 0 ==> d.contact_ok is None
        }),
{
}

/// A known battery level is never cleared by a notification; a frame that is
/// not a battery frame leaves it as it was.
pub proof fn lemma_battery_retained(
    s: HrmState,
    characteristic: u128,
    p: Seq<u8>,
    initial_battery: Option<u8>,
)
    requires
        base_reading(s).battery is Some,
    ensures
        base_reading(notification_result(s, characteristic, p, initial_battery)).battery is Some,
        characteristic != BATTERY_LEVEL_CHARACTERISTIC ==> base_reading(
            notification_result(s, characteristic, p, initial_battery),
        ).battery == base_reading(s).battery,
{
}

} // verus!
