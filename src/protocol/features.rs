use vstd::prelude::*;

use chrono::{Datelike, Timelike};

use crate::error::ProtocolError;
use crate::protocol::{
    array_of, checksum_of, copy_array, decoded, frame_bytes, lemma_array_of, Request,
    Response,
};

verus! {

/// Command id of a feature query.
pub const FEATURES_COMMAND_ID: u8 = 1;

/// A local calendar date and wall-clock time.
#[derive(Debug, Clone, Copy, PartialEq, Eq)]
pub struct CalendarTime {
    pub year: i32,
    pub month: u32,
    pub day: u32,
    pub hour: u32,
    pub minute: u32,
    pub second: u32,
}

impl CalendarTime {
    /// Each field lies in its calendar range.
    pub open spec fn wf(&self) -> bool {
        &&& 1 <= self.month <= 12
        &&& 1 <= self.day <= 31
        &&& self.hour < 24
        &&& self.minute < 60
        &&& self.second < 60
    }
}

/// Relies on chrono's `Local::now` and its `Datelike`/`Timelike` accessors:
/// the current local time, whose month, day, hour, minute and second lie in
/// the ranges that chrono documents for them.
#[verifier::external_body]
fn local_now() -> (r: CalendarTime)
    ensures
        r.wf(),
{
    let now = chrono::Local::now();
    CalendarTime {
        year: now.year(),
        month: now.month(),
        day: now.day(),
        hour: now.hour(),
        minute: now.minute(),
        second: now.second(),
    }
}

/// The year within its century as the device counts it: the remainder of the
/// year by 2000 (rounding toward zero), kept to one byte.
pub open spec fn year_byte(year: int) -> u8 {
    let r = if year >= 0 {
        year % 2000
    } else {
        -((-year) % 2000)
    };
    (r % 256) as u8
}

fn year_in_century(year: i32) -> (r: u8)
    ensures
        r == year_byte(year as int),
{
    if year >= 0 {
        ((year as u32 % 2000) % 256) as u8
    } else {
        let m: u32 = ((0i64 - year as i64) as u64 % 2000) as u32;
        assert(m == (-(year as int)) % 2000);
        ((256 - m % 256) % 256) as u8
    }
}

/// Asks the device which features it supports, telling it the local time.
pub struct FeatureRequest {
    pub command_id: u8,
    pub year: u8,
    pub month: u8,
    pub day_of_month: u8,
    pub hour: u8,
    pub minute: u8,
    pub seconds: u8,
    pub padding: [u8; 8],
    pub checksum: u8,
}

impl FeatureRequest {
    /// A feature request stamped with the current local time.
    pub fn new() -> (r: Self)
        ensures
            r.command_id == FEATURES_COMMAND_ID,
            1 <= r.month <= 12,
            1 <= r.day_of_month <= 31,
            r.hour < 24,
            r.minute < 60,
            r.seconds < 60,
            r.padding@ == Seq::new(8, |_i: int| 0u8),
            r.checksum == checksum_of(r.spec_frame()),
    {
        let now = local_now();
        Self::at(&now)
    }

    /// A feature request stamped with `time`.
    pub fn at(time: &CalendarTime) -> (r: Self)
        ensures
            r.command_id == FEATURES_COMMAND_ID,
            r.year == year_byte(time.year as int),
            r.month == time.month as u8,
            r.day_of_month == time.day as u8,
            r.hour == time.hour as u8,
            r.minute == time.minute as u8,
            r.seconds == time.second as u8,
            r.padding@ == Seq::new(8, |_i: int| 0u8),
            r.checksum == checksum_of(r.spec_frame()),
    {
        let mut req = Self {
            command_id: FEATURES_COMMAND_ID,
            year: year_in_century(time.year),
            month: #[verifier::truncate] (time.month as u8),
            day_of_month: #[verifier::truncate] (time.day as u8),
            hour: #[verifier::truncate] (time.hour as u8),
            minute: #[verifier::truncate] (time.minute as u8),
            seconds: #[verifier::truncate] (time.second as u8),
            padding: [0; 8],
            checksum: FEATURES_COMMAND_ID,
        };
        let ghost before = req.spec_frame();
        let checksum = req.update_checksum();
        req.checksum = checksum;
        assert(req.spec_frame().subrange(0, 15) =~= before.subrange(0, 15));
        assert(req.padding@ =~= Seq::new(8, |_i: int| 0u8));
        req
    }
}

impl Request for FeatureRequest {
    open spec fn spec_frame(&self) -> Seq<u8> {
        seq![
            self.command_id,
            self.year,
            self.month,
            self.day_of_month,
            self.hour,
            self.minute,
            self.seconds,
        ] + self.padding@ + seq![self.checksum]
    }

    fn as_bytes(&self) -> (r: [u8; 16]) {
        let head = [
            self.command_id,
            self.year,
            self.month,
            self.day_of_month,
            self.hour,
            self.minute,
            self.seconds,
        ];
        proof {
            assert(head@ =~= seq![
                self.command_id,
                self.year,
                self.month,
                self.day_of_month,
                self.hour,
                self.minute,
                self.seconds,
            ]);
        }
        frame_bytes(head.as_slice(), self.padding.as_slice(), self.checksum)
    }
}

impl Response for FeatureRequest {
    open spec fn spec_from_frame(frame: Seq<u8>) -> Self {
        FeatureRequest {
            command_id: frame[0],
            year: frame[1],
            month: frame[2],
            day_of_month: frame[3],
            hour: frame[4],
            minute: frame[5],
            seconds: frame[6],
            padding: array_of::<8>(frame.subrange(7, 15)),
            checksum: frame[15],
        }
    }

    fn from_bytes(bytes: Vec<u8>) -> (r: Result<Self, ProtocolError>) {
        match Self::verify_checksum(bytes.as_slice()) {
            Ok(_) => {
                let padding = copy_array::<8>(bytes.as_slice(), 7);
                proof {
                    lemma_array_of(padding);
                }
                Ok(
                    Self {
                        command_id: bytes[0],
                        year: bytes[1],
                        month: bytes[2],
                        day_of_month: bytes[3],
                        hour: bytes[4],
                        minute: bytes[5],
                        seconds: bytes[6],
                        padding,
                        checksum: bytes[15],
                    },
                )
            },
            Err(err) => Err(err),
        }
    }
}

/// A feature request whose checksum field is right comes back unchanged from
/// its own frame.
pub proof fn lemma_feature_request_round_trip(req: FeatureRequest)
    requires
        req.checksum == checksum_of(req.spec_frame()),
    ensures
        decoded::<FeatureRequest>(req.spec_frame()) == Ok::<FeatureRequest, ProtocolError>(req),
{
    let f = req.spec_frame();
    assert(f.subrange(7, 15) =~= req.padding@);
    lemma_array_of(req.padding);
}

/// The features that a device reports about itself.
#[derive(Debug, Clone, Copy, PartialEq, Eq)]
pub struct FeatureResponse {
    pub command_id: u8,
    pub supports_temperature: bool,
    pub supports_plate: bool,
    pub supports_menstruation: bool,
    pub supports_custom_wallpaper: bool,
    pub supports_blood_oxygen: bool,
    pub supports_blood_pressure: bool,
    pub supports_unknown_feature: bool,
    pub supports_one_key_check: bool,
    pub supports_weather: bool,
    pub supports_wechat: bool,
    pub supports_avatar: bool,
    pub width: u16,
    pub height: u16,
    pub use_new_sleep_protocol: bool,
    pub max_watch_faces: u8,
    pub supports_contacts: bool,
    pub supports_lyrics: bool,
    pub supports_album: bool,
    pub supports_gps: bool,
    pub supports_jeilei_music: bool,
    pub supports_manual_heart_rate: bool,
    pub supports_ecard: bool,
    pub supports_location: bool,
    pub supports_music: bool,
    pub supports_ebook: bool,
    pub supports_blood_sugar: bool,
    pub max_contacts: u16,
    pub supports_blood_pressure_settings: bool,
    pub supports_4g: bool,
    pub supports_nav_picture: bool,
    pub supports_pressure: bool,
    pub supports_hrv: bool,
    pub checksum: u8,
}

/// Bit `k` of `b` is set.
#[verifier::opaque]
pub open spec fn flag(b: u8, k: u8) -> bool {
    b & (1u8 << k) != 0
}

/// The 16-bit value of two bytes, low byte first.
#[verifier::opaque]
pub open spec fn le_u16(lo: u8, hi: u8) -> u16 {
    (lo + 256 * hi) as u16
}

/// How many contacts the device holds: a raw value of 0 means 20, any other
/// raw value counts tens.
#[verifier::opaque]
pub open spec fn contacts_capacity(raw: u8) -> u16 {
    if raw == 0 {
        20
    } else {
        (raw * 10) as u16
    }
}

fn read_flag(b: u8, k: u8) -> (r: bool)
    requires
        k < 8,
    ensures
        r == flag(b, k),
{
    reveal(flag);
    b & (1u8 << k) != 0
}

fn read_le_u16(lo: u8, hi: u8) -> (r: u16)
    ensures
        r == le_u16(lo, hi),
{
    reveal(le_u16);
    lo as u16 + (hi as u16) * 256
}

fn read_contacts_capacity(raw: u8) -> (r: u16)
    ensures
        r == contacts_capacity(raw),
{
    reveal(contacts_capacity);
    if raw == 0 {
        20
    } else {
        raw as u16 * 10
    }
}

impl Response for FeatureResponse {
    open spec fn spec_from_frame(frame: Seq<u8>) -> Self {
        FeatureResponse {
            command_id: frame[0],
            supports_temperature: frame[1] != 0,
            supports_plate: frame[2] != 0,
            supports_menstruation: frame[3] != 0,
            supports_custom_wallpaper: flag(frame[4], 0),
            supports_blood_oxygen: flag(frame[4], 1),
            supports_blood_pressure: flag(frame[4], 2),
            supports_unknown_feature: flag(frame[4], 3),
            supports_one_key_check: flag(frame[4], 4),
            supports_weather: flag(frame[4], 5),
            supports_wechat: flag(frame[4], 6),
            supports_avatar: flag(frame[4], 7),
            width: le_u16(frame[5], frame[6]),
            height: le_u16(frame[7], frame[8]),
            use_new_sleep_protocol: frame[9] != 0,
            max_watch_faces: frame[10],
            supports_contacts: flag(frame[11], 0),
            supports_lyrics: flag(frame[11], 1),
            supports_album: flag(frame[11], 2),
            supports_gps: flag(frame[11], 3),
            supports_jeilei_music: flag(frame[11], 4),
            supports_manual_heart_rate: flag(frame[12], 0),
            supports_ecard: flag(frame[12], 1),
            supports_location: flag(frame[12], 2),
            supports_music: flag(frame[12], 4),
            supports_ebook: flag(frame[12], 6),
            supports_blood_sugar: flag(frame[12], 7),
            max_contacts: contacts_capacity(frame[13]),
            supports_blood_pressure_settings: flag(frame[14], 0),
            supports_4g: flag(frame[14], 2),
            supports_nav_picture: flag(frame[14], 3),
            supports_pressure: flag(frame[14], 4),
            supports_hrv: flag(frame[14], 5),
            checksum: frame[15],
        }
    }

    fn from_bytes(bytes: Vec<u8>) -> (r: Result<Self, ProtocolError>) {
        match Self::verify_checksum(bytes.as_slice()) {
            Ok(_) => {
                let frame: [u8; 16] = copy_array::<16>(bytes.as_slice(), 0);
                assert(frame@ =~= bytes@);
                Ok(parse_features(&frame))
            },
            Err(err) => Err(err),
        }
    }
}

/// Reads each field of a feature response from its place in the frame.
fn parse_features(bytes: &[u8; 16]) -> (r: FeatureResponse)
    ensures
        r == FeatureResponse::spec_from_frame(bytes@),
{
    let b0 = bytes[0];
    let b1 = bytes[1];
    let b2 = bytes[2];
    let b3 = bytes[3];
    let b4 = bytes[4];
    let b5 = bytes[5];
    let b6 = bytes[6];
    let b7 = bytes[7];
    let b8 = bytes[8];
    let b9 = bytes[9];
    let b10 = bytes[10];
    let b11 = bytes[11];
    let b12 = bytes[12];
    let b13 = bytes[13];
    let b14 = bytes[14];
    let b15 = bytes[15];
    FeatureResponse {
        command_id: b0,
        supports_temperature: b1 != 0,
        supports_plate: b2 != 0,
        supports_menstruation: b3 != 0,
        supports_custom_wallpaper: read_flag(b4, 0),
        supports_blood_oxygen: read_flag(b4, 1),
        supports_blood_pressure: read_flag(b4, 2),
        supports_unknown_feature: read_flag(b4, 3),
        supports_one_key_check: read_flag(b4, 4),
        supports_weather: read_flag(b4, 5),
        supports_wechat: read_flag(b4, 6),
        supports_avatar: read_flag(b4, 7),
        width: read_le_u16(b5, b6),
        height: read_le_u16(b7, b8),
        use_new_sleep_protocol: b9 != 0,
        max_watch_faces: b10,
        supports_contacts: read_flag(b11, 0),
        supports_lyrics: read_flag(b11, 1),
        supports_album: read_flag(b11, 2),
        supports_gps: read_flag(b11, 3),
        supports_jeilei_music: read_flag(b11, 4),
        supports_manual_heart_rate: read_flag(b12, 0),
        supports_ecard: read_flag(b12, 1),
        supports_location: read_flag(b12, 2),
        supports_music: read_flag(b12, 4),
        supports_ebook: read_flag(b12, 6),
        supports_blood_sugar: read_flag(b12, 7),
        max_contacts: read_contacts_capacity(b13),
        supports_blood_pressure_settings: read_flag(b14, 0),
        supports_4g: read_flag(b14, 2),
        supports_nav_picture: read_flag(b14, 3),
        supports_pressure: read_flag(b14, 4),
        supports_hrv: read_flag(b14, 5),
        checksum: b15,
    }
}

} // verus!
