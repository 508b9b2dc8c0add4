//! Adaptor variants: which protocol decoder claims a peripheral, in what order
//! they are tried, and what the heart-rate profile needs from a peripheral.

use vstd::prelude::*;

use crate::config::{Hrm, HwAddr};
use crate::reading::{byte_at, BATTERY_LEVEL_CHARACTERISTIC, HEART_RATE_MEASUREMENT_CHARACTERISTIC, HEART_RATE_SERVICE};

verus! {

/// A protocol decoding strategy.
#[derive(Debug, Clone, Copy, PartialEq, Eq, Structural)]
pub enum AdaptorKind {
    /// The standard heart-rate profile.
    HeartRateProfile,
    /// Diagnostic variant that dumps everything a device offers.
    Debug,
}

/// Id of the heart-rate profile adaptor in the registry.
pub const HEART_RATE_PROFILE_ID: u16 = 1;

/// Id of the diagnostic adaptor in the registry.
pub const DEBUG_ID: u16 = 0;

/// The variants tried when matching, in order. The diagnostic variant is not
/// among them: it is only used when asked for explicitly.
pub open spec fn registered_kinds() -> Seq<AdaptorKind> {
    seq![AdaptorKind::HeartRateProfile]
}

/// The registered variant with this id, if any.
pub open spec fn registered_kind(id: u16) -> Option<AdaptorKind> {
    if id == HEART_RATE_PROFILE_ID {
        Some(AdaptorKind::HeartRateProfile)
    } else {
        None
    }
}

impl AdaptorKind {
    pub open spec fn id_spec(self) -> u16 {
        match self {
            AdaptorKind::HeartRateProfile => HEART_RATE_PROFILE_ID,
            AdaptorKind::Debug => DEBUG_ID,
        }
    }

    /// The id stored in the registry for this variant.
    pub fn id(&self) -> (r: u16)
        ensures
            r == self.id_spec(),
    {
        match self {
            AdaptorKind::HeartRateProfile => HEART_RATE_PROFILE_ID,
            AdaptorKind::Debug => DEBUG_ID,
        }
    }
}

/// The order in which variants try to claim a peripheral: the variant the
/// registry recorded for it first, when it is a registered one, then every
/// registered variant.
pub open spec fn match_order_spec(recorded: Option<u16>) -> Seq<AdaptorKind> {
    match recorded {
        Some(id) => match registered_kind(id) {
            Some(k) => seq![k] + registered_kinds(),
            None => registered_kinds(),
        },
        None => registered_kinds(),
    }
}

/// Computes `match_order_spec`.
pub fn match_order(recorded: Option<u16>) -> (r: Vec<AdaptorKind>)
    ensures
        r@ == match_order_spec(recorded),
{
    let mut r: Vec<AdaptorKind> = Vec::new();
    if let Some(id) = recorded {
        if id == HEART_RATE_PROFILE_ID {
            r.push(AdaptorKind::HeartRateProfile);
        }
    }
    r.push(AdaptorKind::HeartRateProfile);
    assert(r@ =~= match_order_spec(recorded));
    r
}

/// Result of one variant's attempt to claim a peripheral.
#[derive(Debug, Clone, Copy, PartialEq, Eq, Structural)]
pub enum AttemptOutcome {
    /// The variant claimed the peripheral.
    Matched,
    /// The peripheral does not speak this variant's protocol.
    NoMatch,
    /// An infrastructure failure; it ends matching for this peripheral.
    Failed,
}

/// Where matching a peripheral stands.
#[derive(Debug, Clone, Copy, PartialEq, Eq, Structural)]
pub enum MatchVerdict {
    /// Try this variant next.
    Try(AdaptorKind),
    /// The variant at this position of the order claimed the peripheral.
    Matched(usize),
    /// No variant claims the peripheral; a normal outcome.
    NoMatch,
    /// The attempt at this position failed; matching is aborted.
    Failed(usize),
}

/// The verdict once the first `outcomes.len()` variants of `order` have been
/// tried with these outcomes: the first claim or failure decides; otherwise
/// the next variant is tried, and when none is left nothing matched.
pub open spec fn verdict_spec(order: Seq<AdaptorKind>, outcomes: Seq<AttemptOutcome>) -> MatchVerdict
    decreases outcomes.len(),
{
    if outcomes.len() == 0 {
        if order.len() == 0 {
            MatchVerdict::NoMatch
        } else {
            MatchVerdict::Try(order[0])
        }
    } else if outcomes[0] == AttemptOutcome::Matched {
        MatchVerdict::Matched(0)
    } else if outcomes[0] == AttemptOutcome::Failed {
        MatchVerdict::Failed(0)
    } else if order.len() == 0 {
        MatchVerdict::NoMatch
    } else {
        match verdict_spec(order.drop_first(), outcomes.drop_first()) {
            MatchVerdict::Matched(i) => MatchVerdict::Matched((i + 1) as usize),
            MatchVerdict::Failed(i) => MatchVerdict::Failed((i + 1) as usize),
            v => v,
        }
    }
}

/// Decides how matching goes on after the attempts so far (see `verdict_spec`).
/// `outcomes[i]` is the outcome of the variant `order[i]`.
pub fn match_verdict(order: &Vec<AdaptorKind>, outcomes: &Vec<AttemptOutcome>) -> (r: MatchVerdict)
    requires
        outcomes@.len() <= order@.len(),
    ensures
        r == verdict_spec(order@, outcomes@),
        r matches MatchVerdict::Matched(i) ==> i < outcomes@.len() && outcomes@[i as int] == AttemptOutcome::Matched,
        r matches MatchVerdict::Failed(i) ==> i < outcomes@.len() && outcomes@[i as int] == AttemptOutcome::Failed,
{
    let n = order.len();
    let mut i: usize = 0;
    while i < outcomes.len()
        invariant
            n == order@.len(),
            outcomes@.len() <= order@.len(),
            i <= outcomes@.len(),
            forall|k: int| 0 <= k < i ==> outcomes@[k] == AttemptOutcome::NoMatch,
        decreases outcomes@.len() - i,
    {
        match outcomes[i] {
            AttemptOutcome::Matched => {
                proof {
                    lemma_verdict_skip(order@, outcomes@, i as int);
                }
                return MatchVerdict::Matched(i);
            },
            AttemptOutcome::Failed => {
                proof {
                    lemma_verdict_skip(order@, outcomes@, i as int);
                }
                return MatchVerdict::Failed(i);
            },
            AttemptOutcome::NoMatch => {},
        }
        i += 1;
    }
    proof {
        lemma_verdict_skip(order@, outcomes@, i as int);
    }
    if i < order.len() {
        MatchVerdict::Try(order[i])
    } else {
        MatchVerdict::NoMatch
    }
}

proof fn lemma_verdict_skip(order: Seq<AdaptorKind>, outcomes: Seq<AttemptOutcome>, i: int)
    requires
        0 <= i <= outcomes.len() <= order.len() <= usize::MAX,
        forall|k: int| 0 <= k < i ==> outcomes[k] == AttemptOutcome::NoMatch,
    ensures
        i < outcomes.len() && outcomes[i] == AttemptOutcome::Matched ==> verdict_spec(order, outcomes)
            == MatchVerdict::Matched(i as usize),
        i < outcomes.len() && outcomes[i] == AttemptOutcome::Failed ==> verdict_spec(order, outcomes)
            == MatchVerdict::Failed(i as usize),
        i == outcomes.len() ==> verdict_spec(order, outcomes) == if i < order.len() {
            MatchVerdict::Try(order[i])
        } else {
            MatchVerdict::NoMatch
        },
    decreases i,
{
    if i > 0 {
        let o = outcomes.drop_first();
        assert forall|k: int| 0 <= k < i - 1 implies o[k] == AttemptOutcome::NoMatch by {
            assert(o[k] == outcomes[k + 1]);
        }
        assert(outcomes[0] == AttemptOutcome::NoMatch);
        lemma_verdict_skip(order.drop_first(), o, i - 1);
        if i < outcomes.len() {
            assert(o[i - 1] == outcomes[i]);
        }
    }
}

/// What the heart-rate profile knows of a characteristic.
#[derive(Debug, Clone, Copy, PartialEq, Eq, Structural)]
pub struct CharacteristicInfo {
    pub uuid: u128,
    /// It can notify changes.
    pub notify: bool,
}

/// A characteristic with this identifier, and able to notify when `need_notify`.
pub open spec fn char_matches(c: CharacteristicInfo, uuid: u128, need_notify: bool) -> bool {
    c.uuid == uuid && (c.notify || !need_notify)
}

/// Position of the first characteristic that `char_matches`, if any.
pub open spec fn first_with(chars: Seq<CharacteristicInfo>, uuid: u128, need_notify: bool) -> Option<int>
    decreases chars.len(),
{
    if chars.len() == 0 {
        None
    } else if char_matches(chars[0], uuid, need_notify) {
        Some(0)
    } else {
        match first_with(chars.drop_first(), uuid, need_notify) {
            Some(i) => Some(i + 1),
            None => None,
        }
    }
}

/// A position as an integer.
pub open spec fn as_int(p: Option<usize>) -> Option<int> {
    match p {
        Some(i) => Some(i as int),
        None => None,
    }
}

proof fn lemma_first_with(chars: Seq<CharacteristicInfo>, uuid: u128, need_notify: bool, i: int)
    requires
        0 <= i <= chars.len(),
        forall|k: int| 0 <= k < i ==> !char_matches(#[trigger] chars[k], uuid, need_notify),
        i == chars.len() || char_matches(chars[i], uuid, need_notify),
    ensures
        first_with(chars, uuid, need_notify) == if i < chars.len() {
            Some(i)
        } else {
            None::<int>
        },
    decreases i,
{
    if i > 0 {
        let rest = chars.drop_first();
        assert forall|k: int| 0 <= k < i - 1 implies !char_matches(#[trigger] rest[k], uuid, need_notify) by {
            assert(rest[k] == chars[k + 1]);
        }
        assert(!char_matches(chars[0], uuid, need_notify));
        lemma_first_with(rest, uuid, need_notify, i - 1);
    }
}

fn find_first(chars: &Vec<CharacteristicInfo>, uuid: u128, need_notify: bool) -> (r: Option<usize>)
    ensures
        as_int(r) == first_with(chars@, uuid, need_notify),
{
    let mut i: usize = 0;
    while i < chars.len()
        invariant
            i <= chars@.len(),
            forall|k: int| 0 <= k < i ==> !char_matches(#[trigger] chars@[k], uuid, need_notify),
        decreases chars@.len() - i,
    {
        if chars[i].uuid == uuid && (chars[i].notify || !need_notify) {
            proof {
                lemma_first_with(chars@, uuid, need_notify, i as int);
            }
            return Some(i);
        }
        i += 1;
    }
    proof {
        lemma_first_with(chars@, uuid, need_notify, i as int);
    }
    None
}

/// The battery characteristic to read while claiming a peripheral: the first
/// battery level characteristic, with any properties, when the peripheral
/// advertises the heart-rate service at all.
pub open spec fn battery_to_read_spec(services: Seq<u128>, chars: Seq<CharacteristicInfo>) -> Option<int> {
    if services.contains(HEART_RATE_SERVICE) {
        first_with(chars, BATTERY_LEVEL_CHARACTERISTIC, false)
    } else {
        None
    }
}

/// The heart-rate measurement characteristic to subscribe to: the first one
/// that can notify.
pub open spec fn measurement_spec(chars: Seq<CharacteristicInfo>) -> Option<int> {
    first_with(chars, HEART_RATE_MEASUREMENT_CHARACTERISTIC, true)
}

/// Computes `battery_to_read_spec`.
pub fn battery_to_read(services: &Vec<u128>, chars: &Vec<CharacteristicInfo>) -> (r: Option<usize>)
    ensures
        as_int(r) == battery_to_read_spec(services@, chars@),
{
    if !has_service(services, HEART_RATE_SERVICE) {
        return None;
    }
    find_first(chars, BATTERY_LEVEL_CHARACTERISTIC, false)
}

fn has_service(services: &Vec<u128>, service: u128) -> (r: bool)
    ensures
        r == services@.contains(service),
{
    let mut i: usize = 0;
    while i < services.len()
        invariant
            i <= services@.len(),
            forall|k: int| 0 <= k < i ==> services@[k] != service,
        decreases services@.len() - i,
    {
        if services[i] == service {
            return true;
        }
        i += 1;
    }
    false
}

/// What the heart-rate profile takes from a peripheral it claims.
#[derive(Debug, Clone)]
pub struct HeartRateClaim {
    /// Positions of the characteristics to subscribe to: the battery level
    /// when it could be read, then the heart-rate measurement.
    pub subscriptions: Vec<usize>,
    /// Battery level read while claiming.
    pub initial_battery: Option<u8>,
}

/// Decides whether the heart-rate profile claims a peripheral.
///
/// `battery_value` is what reading the characteristic named by
/// `battery_to_read` gave, `None` when there was none or reading failed. The
/// peripheral is claimed when it advertises the heart-rate service and has a
/// notifying heart-rate measurement characteristic.
pub fn heart_rate_claim(
    services: &Vec<u128>,
    chars: &Vec<CharacteristicInfo>,
    battery_value: Option<Vec<u8>>,
) -> (r: Option<HeartRateClaim>)
    ensures
        r is Some <==> services@.contains(HEART_RATE_SERVICE) && measurement_spec(chars@) is Some,
        r matches Some(claim) ==> ({
            let m = measurement_spec(chars@).unwrap();
            let b = battery_to_read_spec(services@, chars@);
            &&& claim.initial_battery == match (b, battery_value) {
                (Some(_), Some(v)) => Some(byte_at(v@, 0)),
                _ => None,
            }
            &&& claim.subscriptions@.map_values(|i: usize| i as int) == match (b, battery_value) {
                (Some(i), Some(_)) => seq![i, m],
                _ => seq![m],
            }
        }),
{
    if !has_service(services, HEART_RATE_SERVICE) {
        return None;
    }
    let m = match find_first(chars, HEART_RATE_MEASUREMENT_CHARACTERISTIC, true) {
        Some(m) => m,
        None => {
            return None;
        },
    };
    let b = battery_to_read(services, chars);
    let mut subscriptions: Vec<usize> = Vec::new();
    let mut initial_battery: Option<u8> = None;
    match (b, battery_value) {
        (Some(i), Some(v)) => {
            initial_battery = Some(if v.len() > 0 { v[0] } else { 0 });
            subscriptions.push(i);
        },
        _ => {},
    }
    subscriptions.push(m);
    proof {
        assert(subscriptions@.map_values(|i: usize| i as int) =~= match (as_int(b), battery_value) {
            (Some(i), Some(_)) => seq![i, m as int],
            _ => seq![m as int],
        });
    }
    Some(HeartRateClaim { subscriptions, initial_battery })
}

/// The registry entry that records a newly accepted device.
pub fn describe(name: &String, addr: HwAddr, kind: AdaptorKind) -> (r: Hrm)
    ensures
        r.name@ == name@,
        r.mac == addr,
        r.adaptor_id == Some(kind.id_spec()),
{
    Hrm { name: name.clone(), mac: addr, adaptor_id: Some(kind.id()) }
}

/// Characteristics the diagnostic variant subscribes to: every one that can
/// notify, in order.
pub fn notifiable(chars: &Vec<CharacteristicInfo>) -> (r: Vec<usize>)
    ensures
        r@ == Seq::new(chars@.len(), |i: int| i).filter(|i: int| chars@[i].notify).map_values(|i: int| i as usize),
{
    let ghost all = Seq::new(chars@.len(), |i: int| i);
    let mut r: Vec<usize> = Vec::new();
    let mut i: usize = 0;
    while i < chars.len()
        invariant
            i <= chars@.len(),
            all == Seq::new(chars@.len(), |i: int| i),
            r@ == all.subrange(0, i as int).filter(|i: int| chars@[i].notify).map_values(|i: int| i as usize),
        decreases chars@.len() - i,
    {
        let ghost pre = all.subrange(0, i as int);
        assert(all.subrange(0, i + 1) =~= pre.push(i as int));
        reveal(Seq::filter);
        assert(pre.push(i as int).drop_last() =~= pre);
        if chars[i].notify {
            r.push(i);
        }
        i += 1;
        assert(r@ =~= all.subrange(0, i as int).filter(|i: int| chars@[i].notify).map_values(|i: int| i as usize));
    }
    assert(all.subrange(0, i as int) =~= all);
    r
}

/// Device information service (0x180A).
pub const DEVICE_INFORMATION_SERVICE: u128 = 0x0000180a_0000_1000_8000_00805f9b34fb;

/// A known field of the device information service.
#[derive(Debug, Clone, Copy, PartialEq, Eq, Structural)]
pub enum InfoField {
    SystemId,
    ModelNumber,
    SerialNumber,
    FirmwareRevision,
    HardwareRevision,
    SoftwareRevision,
    ManufacturerName,
}

impl InfoField {
    /// The caption shown before the field's value.
    pub fn caption(&self) -> (r: &'static str)
        ensures
            r@ == match self {
                InfoField::SystemId => "System ID"@,
                InfoField::ModelNumber => "Model Number"@,
                InfoField::SerialNumber => "Serial Number"@,
                InfoField::FirmwareRevision => "Firmware Revision"@,
                InfoField::HardwareRevision => "Hardware Revision"@,
                InfoField::SoftwareRevision => "Software Revision"@,
                InfoField::ManufacturerName => "Manufacture Name"@,
            },
    {
        match self {
            InfoField::SystemId => "System ID",
            InfoField::ModelNumber => "Model Number",
            InfoField::SerialNumber => "Serial Number",
            InfoField::FirmwareRevision => "Firmware Revision",
            InfoField::HardwareRevision => "Hardware Revision",
            InfoField::SoftwareRevision => "Software Revision",
            InfoField::ManufacturerName => "Manufacture Name",
        }
    }
}

/// How the diagnostic variant labels a value it read.
#[derive(Debug, Clone, Copy, PartialEq, Eq, Structural)]
pub enum InfoLabel {
    /// A known field of the device information service.
    Field(InfoField),
    /// A device information field that is not shown as text.
    Hidden,
    /// A characteristic of the device information service that is not known.
    Unknown,
    /// A characteristic of another service.
    Other,
}

/// The device information field with this 16-bit number.
pub open spec fn info_field(short: u128) -> Option<InfoField> {
    if short == 0x2a23 {
        Some(InfoField::SystemId)
    } else if short == 0x2a24 {
        Some(InfoField::ModelNumber)
    } else if short == 0x2a25 {
        Some(InfoField::SerialNumber)
    } else if short == 0x2a26 {
        Some(InfoField::FirmwareRevision)
    } else if short == 0x2a27 {
        Some(InfoField::HardwareRevision)
    } else if short == 0x2a28 {
        Some(InfoField::SoftwareRevision)
    } else if short == 0x2a29 {
        Some(InfoField::ManufacturerName)
    } else {
        None
    }
}

/// The offset of the Bluetooth base identifier: a 16-bit number `n` stands
/// for `n * BASE_SHIFT + BASE_LOW`.
pub const BASE_SHIFT: u128 = 0x1_0000_0000_0000_0000_0000_0000;

/// The low bits of the Bluetooth base identifier.
pub const BASE_LOW: u128 = 0x0000_1000_8000_00805f9b34fb;

/// How the diagnostic variant labels the value of `characteristic` in `service`.
pub open spec fn info_label_spec(service: u128, characteristic: u128) -> InfoLabel {
    if service != DEVICE_INFORMATION_SERVICE {
        InfoLabel::Other
    } else if characteristic % BASE_SHIFT == BASE_LOW && info_field(characteristic / BASE_SHIFT) is Some {
        InfoLabel::Field(info_field(characteristic / BASE_SHIFT).unwrap())
    } else if characteristic == 0x00002a2a_0000_1000_8000_00805f9b34fb || characteristic
        == 0x00002a50_0000_1000_8000_00805f9b34fb {
        InfoLabel::Hidden
    } else {
        InfoLabel::Unknown
    }
}

/// Computes `info_label_spec`.
pub fn info_label(service: u128, characteristic: u128) -> (r: InfoLabel)
    ensures
        r == info_label_spec(service, characteristic),
{
    if service != DEVICE_INFORMATION_SERVICE {
        return InfoLabel::Other;
    }
    if characteristic % BASE_SHIFT == BASE_LOW {
        let short = characteristic / BASE_SHIFT;
        let field = if short == 0x2a23 {
            Some(InfoField::SystemId)
        } else if short == 0x2a24 {
            Some(InfoField::ModelNumber)
        } else if short == 0x2a25 {
            Some(InfoField::SerialNumber)
        } else if short == 0x2a26 {
            Some(InfoField::FirmwareRevision)
        } else if short == 0x2a27 {
            Some(InfoField::HardwareRevision)
        } else if short == 0x2a28 {
            Some(InfoField::SoftwareRevision)
        } else if short == 0x2a29 {
            Some(InfoField::ManufacturerName)
        } else {
            None
        };
        if let Some(f) = field {
            return InfoLabel::Field(f);
        }
    }
    if characteristic == 0x00002a2a_0000_1000_8000_00805f9b34fb || characteristic
        == 0x00002a50_0000_1000_8000_00805f9b34fb {
        InfoLabel::Hidden
    } else {
        InfoLabel::Unknown
    }
}

} // verus!
