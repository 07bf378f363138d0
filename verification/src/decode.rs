//! Decoder for the sensor provider's JSON payload.
//!
//! The outer document is an object whose `results` member holds an array of
//! sensor records; each record carries `ID` (unsigned integer), `Label`
//! (string) and `Stats`.  The provider double-encodes `Stats`: its value is
//! a string whose contents are themselves a JSON object with the seven
//! numeric readings `v`, `v1` .. `v6`.  Members the decoder does not know
//! are skipped without being interpreted.  `spec_decode` is the decoder's
//! specification; `decode` is proved to return exactly what it says.  As in
//! the scanners, bytes are written as hex ASCII codes.

use vstd::prelude::*;
use crate::json::{is_digit, spec_ws_end, ws_end, spec_string_at, string_at, spec_number_at,
    number_at, spec_skip_json, skip_json, spec_digits_loop, digits_loop, spec_leading_zero};

verus! {

/// One sensor's seven PM2.5 readings, as fixed-point thousandths of a
/// ug/m^3: `v` is the current reading, `v1`/`v2`/`v3` the 10-minute,
/// 30-minute and 1-hour averages, `v4`/`v5`/`v6` the 6-hour, 24-hour and
/// 1-week averages.
#[derive(Clone, Copy, Debug, PartialEq, Eq, Structural)]
pub struct Stats {
    pub v: i64,
    pub v1: i64,
    pub v2: i64,
    pub v3: i64,
    pub v4: i64,
    pub v5: i64,
    pub v6: i64,
}

/// Specification-level image of a decoded sensor record.
pub struct SensorModel {
    pub id: u64,
    pub label: Seq<u8>,
    pub stats: Stats,
}

/// One decoded sensor record: the provider-assigned identity, the display
/// label (unescaped UTF-8 bytes), and the statistics block.
#[derive(Debug, PartialEq, Eq)]
pub struct Sensor {
    pub id: u64,
    pub label: Vec<u8>,
    pub stats: Stats,
}

impl View for Sensor {
    type V = SensorModel;

    open spec fn view(&self) -> SensorModel {
        SensorModel { id: self.id, label: self.label@, stats: self.stats }
    }
}

/// The top-level decoded document: the provider's ordered list of records.
#[derive(Debug, PartialEq, Eq)]
pub struct Response {
    pub results: Vec<Sensor>,
}

/// The records of a sequence of sensors, as specification values.
pub open spec fn spec_sensors_view(v: Seq<Sensor>) -> Seq<SensorModel> {
    Seq::new(v.len(), |k: int| v[k]@)
}

impl View for Response {
    type V = Seq<SensorModel>;

    open spec fn view(&self) -> Seq<SensorModel> {
        spec_sensors_view(self.results@)
    }
}

/// Decoding failures, one kind per way a provider document is rejected.
#[derive(Clone, Copy, Debug, PartialEq, Eq, Structural)]
pub enum DecodeError {
    /// The outer document is not well-formed JSON of the expected shape.
    MalformedOuter,
    /// The `results` member is absent, repeated, or not an array.
    ResultsMissing,
    /// A record lacks one of `ID`, `Label`, `Stats`.
    RecordFieldMissing,
    /// A record's `Stats` member is not a string.
    StatsNotString,
    /// The contents of the `Stats` string are not well-formed JSON.
    MalformedStats,
    /// The nested statistics object lacks one of the seven readings, repeats
    /// one, or gives one a non-numeric value.
    StatsFieldInvalid,
}

/// Which of the seven readings a key of the nested statistics object names;
/// 7 for a key the decoder ignores.
pub open spec fn spec_stats_slot(k: Seq<u8>) -> int {
    if k == seq![0x76u8] {
        0
    } else if k == seq![0x76u8, 0x31u8] {
        1
    } else if k == seq![0x76u8, 0x32u8] {
        2
    } else if k == seq![0x76u8, 0x33u8] {
        3
    } else if k == seq![0x76u8, 0x34u8] {
        4
    } else if k == seq![0x76u8, 0x35u8] {
        5
    } else if k == seq![0x76u8, 0x36u8] {
        6
    } else {
        7
    }
}

fn stats_slot(k: &Vec<u8>) -> (r: usize)
    ensures
        r == spec_stats_slot(k@),
{
    if k.len() == 1 && k[0] == 0x76 {
        proof {
            assert(k@ =~= seq![0x76u8]);
        }
        0
    } else if k.len() == 2 && k[0] == 0x76 && k[1] >= 0x31 && k[1] <= 0x36 {
        proof {
            assert(k@ =~= seq![0x76, k@[1]]);
        }
        (k[1] - 0x30) as usize
    } else {
        7
    }
}

/// Which record member a key of a sensor object names: 0 for `ID`, 1 for
/// `Label`, 2 for `Stats`, 3 for a key the decoder ignores.
pub open spec fn spec_record_slot(k: Seq<u8>) -> int {
    if k == seq![0x49u8, 0x44u8] {
        0
    } else if k == seq![0x4cu8, 0x61u8, 0x62u8, 0x65u8, 0x6cu8] {
        1
    } else if k == seq![0x53u8, 0x74u8, 0x61u8, 0x74u8, 0x73u8] {
        2
    } else {
        3
    }
}

fn record_slot(k: &Vec<u8>) -> (r: usize)
    ensures
        r == spec_record_slot(k@),
{
    if k.len() == 2 && k[0] == 0x49 && k[1] == 0x44 {
        proof {
            assert(k@ =~= seq![0x49u8, 0x44u8]);
        }
        0
    } else if k.len() == 5 && k[0] == 0x4c && k[1] == 0x61 && k[2] == 0x62 && k[3] == 0x65 && k[4]
        == 0x6c {
        proof {
            assert(k@ =~= seq![0x4cu8, 0x61u8, 0x62u8, 0x65u8, 0x6cu8]);
        }
        1
    } else if k.len() == 5 && k[0] == 0x53 && k[1] == 0x74 && k[2] == 0x61 && k[3] == 0x74 && k[4]
        == 0x73 {
        proof {
            assert(k@ =~= seq![0x53u8, 0x74u8, 0x61u8, 0x74u8, 0x73u8]);
        }
        2
    } else {
        3
    }
}

/// Whether a key of the outer object is `results`.
pub open spec fn spec_is_results_key(k: Seq<u8>) -> bool {
    k == seq![0x72u8, 0x65u8, 0x73u8, 0x75u8, 0x6cu8, 0x74u8, 0x73u8]
}

fn is_results_key(k: &Vec<u8>) -> (r: bool)
    ensures
        r == spec_is_results_key(k@),
{
    if k.len() == 7 && k[0] == 0x72 && k[1] == 0x65 && k[2] == 0x73 && k[3] == 0x75 && k[4] == 0x6c
        && k[5] == 0x74 && k[6] == 0x73 {
        proof {
            assert(k@ =~= seq![0x72u8, 0x65u8, 0x73u8, 0x75u8, 0x6cu8, 0x74u8, 0x73u8]);
        }
        true
    } else {
        false
    }
}

/// The readings collected so far while walking the members of a nested
/// statistics object.
#[derive(Clone, Copy)]
pub struct StatsAcc {
    pub v: Option<i64>,
    pub v1: Option<i64>,
    pub v2: Option<i64>,
    pub v3: Option<i64>,
    pub v4: Option<i64>,
    pub v5: Option<i64>,
    pub v6: Option<i64>,
}

/// The reading of slot `slot` collected so far.
pub open spec fn spec_acc_get(a: StatsAcc, slot: int) -> Option<i64> {
    if slot == 0 {
        a.v
    } else if slot == 1 {
        a.v1
    } else if slot == 2 {
        a.v2
    } else if slot == 3 {
        a.v3
    } else if slot == 4 {
        a.v4
    } else if slot == 5 {
        a.v5
    } else {
        a.v6
    }
}

/// The accumulator with slot `slot` set to `x`.
pub open spec fn spec_acc_set(a: StatsAcc, slot: int, x: i64) -> StatsAcc {
    if slot == 0 {
        StatsAcc { v: Some(x), ..a }
    } else if slot == 1 {
        StatsAcc { v1: Some(x), ..a }
    } else if slot == 2 {
        StatsAcc { v2: Some(x), ..a }
    } else if slot == 3 {
        StatsAcc { v3: Some(x), ..a }
    } else if slot == 4 {
        StatsAcc { v4: Some(x), ..a }
    } else if slot == 5 {
        StatsAcc { v5: Some(x), ..a }
    } else {
        StatsAcc { v6: Some(x), ..a }
    }
}

fn acc_get(a: &StatsAcc, slot: usize) -> (r: Option<i64>)
    requires
        slot < 7,
    ensures
        r == spec_acc_get(*a, slot as int),
{
    if slot == 0 {
        a.v
    } else if slot == 1 {
        a.v1
    } else if slot == 2 {
        a.v2
    } else if slot == 3 {
        a.v3
    } else if slot == 4 {
        a.v4
    } else if slot == 5 {
        a.v5
    } else {
        a.v6
    }
}

fn acc_set(a: StatsAcc, slot: usize, x: i64) -> (r: StatsAcc)
    requires
        slot < 7,
    ensures
        r == spec_acc_set(a, slot as int, x),
{
    if slot == 0 {
        StatsAcc { v: Some(x), ..a }
    } else if slot == 1 {
        StatsAcc { v1: Some(x), ..a }
    } else if slot == 2 {
        StatsAcc { v2: Some(x), ..a }
    } else if slot == 3 {
        StatsAcc { v3: Some(x), ..a }
    } else if slot == 4 {
        StatsAcc { v4: Some(x), ..a }
    } else if slot == 5 {
        StatsAcc { v5: Some(x), ..a }
    } else {
        StatsAcc { v6: Some(x), ..a }
    }
}

/// The empty accumulator: no reading seen yet.
pub open spec fn spec_acc_empty() -> StatsAcc {
    StatsAcc { v: None, v1: None, v2: None, v3: None, v4: None, v5: None, v6: None }
}

/// Members of the nested statistics object from position `i` (just after
/// `{` or a `,`): `"key": value` pairs separated by commas, closed by `}`.
/// Keys among `v` .. `v6` must carry a number, each at most once; other
/// members are skipped.
pub open spec fn spec_stats_members(s: Seq<u8>, i: int, acc: StatsAcc) -> Result<
    (StatsAcc, int),
    DecodeError,
>
    decreases s.len() - i,
{
    let j1 = spec_ws_end(s, i);
    match spec_string_at(s, j1) {
        None => Err(DecodeError::MalformedStats),
        Some((k, j2)) => {
            let j3 = spec_ws_end(s, j2);
            if !(j3 < s.len() && s[j3] == 0x3a) {
                Err(DecodeError::MalformedStats)
            } else {
                let j4 = spec_ws_end(s, j3 + 1);
                let slot = spec_stats_slot(k);
                let step: Result<(StatsAcc, int), DecodeError> = if slot < 7 {
                    match spec_number_at(s, j4) {
                        None => Err(DecodeError::StatsFieldInvalid),
                        Some((val, j5)) => {
                            if spec_acc_get(acc, slot) is Some {
                                Err(DecodeError::StatsFieldInvalid)
                            } else {
                                Ok((spec_acc_set(acc, slot, val as i64), j5))
                            }
                        },
                    }
                } else {
                    match spec_skip_json(s, j4) {
                        None => Err(DecodeError::MalformedStats),
                        Some(j5) => Ok((acc, j5)),
                    }
                };
                match step {
                    Err(e) => Err(e),
                    Ok((acc2, j5)) => {
                        let j6 = spec_ws_end(s, j5);
                        if j6 < s.len() && s[j6] == 0x2c {
                            if i < j6 + 1 <= s.len() {
                                spec_stats_members(s, j6 + 1, acc2)
                            } else {
                                Err(DecodeError::MalformedStats)
                            }
                        } else if j6 < s.len() && s[j6] == 0x7d {
                            Ok((acc2, j6 + 1))
                        } else {
                            Err(DecodeError::MalformedStats)
                        }
                    },
                }
            }
        },
    }
}

/// The contents of a `Stats` string as a statistics block: a JSON object,
/// nothing but whitespace around it, holding each of the seven readings
/// exactly once as a number.
pub open spec fn spec_stats_doc(s: Seq<u8>) -> Result<Stats, DecodeError> {
    let i0 = spec_ws_end(s, 0);
    if !(i0 < s.len() && s[i0] == 0x7b) {
        Err(DecodeError::MalformedStats)
    } else {
        let i1 = spec_ws_end(s, i0 + 1);
        let inner: Result<(StatsAcc, int), DecodeError> = if i1 < s.len() && s[i1] == 0x7d {
            Ok((spec_acc_empty(), i1 + 1))
        } else {
            spec_stats_members(s, i0 + 1, spec_acc_empty())
        };
        match inner {
            Err(e) => Err(e),
            Ok((acc, end)) => {
                if spec_ws_end(s, end) != s.len() {
                    Err(DecodeError::MalformedStats)
                } else {
                    match (acc.v, acc.v1, acc.v2, acc.v3, acc.v4, acc.v5, acc.v6) {
                        (
                            Some(v),
                            Some(v1),
                            Some(v2),
                            Some(v3),
                            Some(v4),
                            Some(v5),
                            Some(v6),
                        ) => Ok(Stats { v, v1, v2, v3, v4, v5, v6 }),
                        _ => Err(DecodeError::StatsFieldInvalid),
                    }
                }
            },
        }
    }
}

fn stats_members(s: &Vec<u8>, i: usize, acc: StatsAcc) -> (r: Result<(StatsAcc, usize), DecodeError>)
    requires
        i <= s@.len(),
    ensures
        match r {
            Ok((a, e)) => spec_stats_members(s@, i as int, acc) == Ok::<_, DecodeError>((
                a,
                e as int,
            )) && e <= s@.len(),
            Err(e) => spec_stats_members(s@, i as int, acc) == Err::<(StatsAcc, int), _>(e),
        },
    decreases s@.len() - i,
{
    let j1 = ws_end(s, i);
    let (k, j2) = match string_at(s, j1) {
        Ok(p) => p,
        Err(()) => {
            return Err(DecodeError::MalformedStats);
        },
    };
    let j3 = ws_end(s, j2);
    if !(j3 < s.len() && s[j3] == 0x3a) {
        return Err(DecodeError::MalformedStats);
    }
    let j4 = ws_end(s, j3 + 1);
    let slot = stats_slot(&k);
    let (acc2, j5): (StatsAcc, usize) = if slot < 7 {
        match number_at(s, j4) {
            Err(()) => {
                return Err(DecodeError::StatsFieldInvalid);
            },
            Ok((val, j5)) => {
                if acc_get(&acc, slot).is_some() {
                    return Err(DecodeError::StatsFieldInvalid);
                }
                (acc_set(acc, slot, val), j5)
            },
        }
    } else {
        match skip_json(s, j4) {
            Err(()) => {
                return Err(DecodeError::MalformedStats);
            },
            Ok(j5) => (acc, j5),
        }
    };
    let j6 = ws_end(s, j5);
    if j6 < s.len() && s[j6] == 0x2c {
        if i < j6 + 1 {
            stats_members(s, j6 + 1, acc2)
        } else {
            Err(DecodeError::MalformedStats)
        }
    } else if j6 < s.len() && s[j6] == 0x7d {
        Ok((acc2, j6 + 1))
    } else {
        Err(DecodeError::MalformedStats)
    }
}

/// Decode the contents of a `Stats` string into a statistics block.
pub fn stats_doc(s: &Vec<u8>) -> (r: Result<Stats, DecodeError>)
    ensures
        match r {
            Ok(st) => spec_stats_doc(s@) == Ok::<_, DecodeError>(st),
            Err(e) => spec_stats_doc(s@) == Err::<Stats, _>(e),
        },
{
    let i0 = ws_end(s, 0);
    if !(i0 < s.len() && s[i0] == 0x7b) {
        return Err(DecodeError::MalformedStats);
    }
    let i1 = ws_end(s, i0 + 1);
    let inner: Result<(StatsAcc, usize), DecodeError> = if i1 < s.len() && s[i1] == 0x7d {
        Ok(
            (
                StatsAcc {
                    v: None,
                    v1: None,
                    v2: None,
                    v3: None,
                    v4: None,
                    v5: None,
                    v6: None,
                },
                i1 + 1,
            ),
        )
    } else {
        stats_members(
            s,
            i0 + 1,
            StatsAcc { v: None, v1: None, v2: None, v3: None, v4: None, v5: None, v6: None },
        )
    };
    match inner {
        Err(e) => Err(e),
        Ok((acc, end)) => {
            if ws_end(s, end) != s.len() {
                Err(DecodeError::MalformedStats)
            } else {
                match (acc.v, acc.v1, acc.v2, acc.v3, acc.v4, acc.v5, acc.v6) {
                    (Some(v), Some(v1), Some(v2), Some(v3), Some(v4), Some(v5), Some(v6)) => Ok(
                        Stats { v, v1, v2, v3, v4, v5, v6 },
                    ),
                    _ => Err(DecodeError::StatsFieldInvalid),
                }
            }
        },
    }
}

/// Members of a sensor object from position `i` (just after `{` or a `,`).
/// `ID` must carry an unsigned integer, `Label` a string, `Stats` a string
/// whose contents decode as a statistics block; each may appear at most
/// once, and all three must be present when the closing `}` is reached.
/// Other members are skipped.
pub open spec fn spec_sensor_members(
    s: Seq<u8>,
    i: int,
    id: Option<u64>,
    label: Option<Seq<u8>>,
    st: Option<Stats>,
) -> Result<(SensorModel, int), DecodeError>
    decreases s.len() - i,
{
    let j1 = spec_ws_end(s, i);
    match spec_string_at(s, j1) {
        None => Err(DecodeError::MalformedOuter),
        Some((k, j2)) => {
            let j3 = spec_ws_end(s, j2);
            if !(j3 < s.len() && s[j3] == 0x3a) {
                Err(DecodeError::MalformedOuter)
            } else {
                let j4 = spec_ws_end(s, j3 + 1);
                let slot = spec_record_slot(k);
                let step: Result<((Option<u64>, Option<Seq<u8>>, Option<Stats>), int), DecodeError>
                    = if slot == 0 {
                    if j4 < s.len() && is_digit(s[j4]) && !spec_leading_zero(s, j4) {
                        match spec_digits_loop(s, j4, 0, 18446744073709551615) {
                            None => Err(DecodeError::MalformedOuter),
                            Some((val, j5)) => {
                                if id is Some {
                                    Err(DecodeError::MalformedOuter)
                                } else {
                                    Ok(((Some(val as u64), label, st), j5))
                                }
                            },
                        }
                    } else {
                        Err(DecodeError::MalformedOuter)
                    }
                } else if slot == 1 {
                    match spec_string_at(s, j4) {
                        None => Err(DecodeError::MalformedOuter),
                        Some((lv, j5)) => {
                            if label is Some {
                                Err(DecodeError::MalformedOuter)
                            } else {
                                Ok(((id, Some(lv), st), j5))
                            }
                        },
                    }
                } else if slot == 2 {
                    if !(j4 < s.len() && s[j4] == 0x22) {
                        Err(DecodeError::StatsNotString)
                    } else {
                        match spec_string_at(s, j4) {
                            None => Err(DecodeError::MalformedOuter),
                            Some((content, j5)) => {
                                if st is Some {
                                    Err(DecodeError::MalformedOuter)
                                } else {
                                    match spec_stats_doc(content) {
                                        Err(e) => Err(e),
                                        Ok(sv) => Ok(((id, label, Some(sv)), j5)),
                                    }
                                }
                            },
                        }
                    }
                } else {
                    match spec_skip_json(s, j4) {
                        None => Err(DecodeError::MalformedOuter),
                        Some(j5) => Ok(((id, label, st), j5)),
                    }
                };
                match step {
                    Err(e) => Err(e),
                    Ok(((id2, label2, st2), j5)) => {
                        let j6 = spec_ws_end(s, j5);
                        if j6 < s.len() && s[j6] == 0x2c {
                            if i < j6 + 1 <= s.len() {
                                spec_sensor_members(s, j6 + 1, id2, label2, st2)
                            } else {
                                Err(DecodeError::MalformedOuter)
                            }
                        } else if j6 < s.len() && s[j6] == 0x7d {
                            match (id2, label2, st2) {
                                (Some(idv), Some(lv), Some(sv)) => Ok(
                                    (SensorModel { id: idv, label: lv, stats: sv }, j6 + 1),
                                ),
                                _ => Err(DecodeError::RecordFieldMissing),
                            }
                        } else {
                            Err(DecodeError::MalformedOuter)
                        }
                    },
                }
            }
        },
    }
}

/// A whole sensor record starting (after whitespace) at `i`.
pub open spec fn spec_sensor_at(s: Seq<u8>, i: int) -> Result<(SensorModel, int), DecodeError> {
    let j0 = spec_ws_end(s, i);
    if !(j0 < s.len() && s[j0] == 0x7b) {
        Err(DecodeError::MalformedOuter)
    } else {
        let j1 = spec_ws_end(s, j0 + 1);
        if j1 < s.len() && s[j1] == 0x7d {
            Err(DecodeError::RecordFieldMissing)
        } else {
            spec_sensor_members(s, j0 + 1, None, None, None)
        }
    }
}

/// Elements of the `results` array from position `i` (just after `[` or a
/// `,`): sensor records separated by commas, closed by `]`.
pub open spec fn spec_results_items(s: Seq<u8>, i: int, acc: Seq<SensorModel>) -> Result<
    (Seq<SensorModel>, int),
    DecodeError,
>
    decreases s.len() - i,
{
    match spec_sensor_at(s, i) {
        Err(e) => Err(e),
        Ok((sm, j5)) => {
            let j6 = spec_ws_end(s, j5);
            if j6 < s.len() && s[j6] == 0x2c {
                if i < j6 + 1 <= s.len() {
                    spec_results_items(s, j6 + 1, acc.push(sm))
                } else {
                    Err(DecodeError::MalformedOuter)
                }
            } else if j6 < s.len() && s[j6] == 0x5d {
                Ok((acc.push(sm), j6 + 1))
            } else {
                Err(DecodeError::MalformedOuter)
            }
        },
    }
}

/// The `results` array whose `[` stands at `i`.
pub open spec fn spec_results_array(s: Seq<u8>, i: int) -> Result<
    (Seq<SensorModel>, int),
    DecodeError,
> {
    let j1 = spec_ws_end(s, i + 1);
    if j1 < s.len() && s[j1] == 0x5d {
        Ok((Seq::empty(), j1 + 1))
    } else {
        spec_results_items(s, i + 1, Seq::empty())
    }
}

/// Members of the outer object from position `i` (just after `{` or a `,`).
/// The member `results` must carry an array of sensor records, at most
/// once; other members are skipped.
pub open spec fn spec_outer_members(s: Seq<u8>, i: int, found: Option<Seq<SensorModel>>) -> Result<
    (Option<Seq<SensorModel>>, int),
    DecodeError,
>
    decreases s.len() - i,
{
    let j1 = spec_ws_end(s, i);
    match spec_string_at(s, j1) {
        None => Err(DecodeError::MalformedOuter),
        Some((k, j2)) => {
            let j3 = spec_ws_end(s, j2);
            if !(j3 < s.len() && s[j3] == 0x3a) {
                Err(DecodeError::MalformedOuter)
            } else {
                let j4 = spec_ws_end(s, j3 + 1);
                let step: Result<(Option<Seq<SensorModel>>, int), DecodeError> = if spec_is_results_key(
                    k,
                ) {
                    if found is Some {
                        Err(DecodeError::ResultsMissing)
                    } else if j4 < s.len() && s[j4] == 0x5b {
                        match spec_results_array(s, j4) {
                            Err(e) => Err(e),
                            Ok((rs, j5)) => Ok((Some(rs), j5)),
                        }
                    } else {
                        Err(DecodeError::ResultsMissing)
                    }
                } else {
                    match spec_skip_json(s, j4) {
                        None => Err(DecodeError::MalformedOuter),
                        Some(j5) => Ok((found, j5)),
                    }
                };
                match step {
                    Err(e) => Err(e),
                    Ok((found2, j5)) => {
                        let j6 = spec_ws_end(s, j5);
                        if j6 < s.len() && s[j6] == 0x2c {
                            if i < j6 + 1 <= s.len() {
                                spec_outer_members(s, j6 + 1, found2)
                            } else {
                                Err(DecodeError::MalformedOuter)
                            }
                        } else if j6 < s.len() && s[j6] == 0x7d {
                            Ok((found2, j6 + 1))
                        } else {
                            Err(DecodeError::MalformedOuter)
                        }
                    },
                }
            }
        },
    }
}

/// The decoder's specification: the records of the provider document `s`,
/// or the error that rejects it.  The document must be an object, with
/// nothing but whitespace around it, holding a `results` array of sensor
/// records as `spec_sensor_members` describes.
pub open spec fn spec_decode(s: Seq<u8>) -> Result<Seq<SensorModel>, DecodeError> {
    let i0 = spec_ws_end(s, 0);
    if !(i0 < s.len() && s[i0] == 0x7b) {
        Err(DecodeError::MalformedOuter)
    } else {
        let i1 = spec_ws_end(s, i0 + 1);
        let mres: Result<(Option<Seq<SensorModel>>, int), DecodeError> = if i1 < s.len() && s[i1]
            == 0x7d {
            Ok((None, i1 + 1))
        } else {
            spec_outer_members(s, i0 + 1, None)
        };
        match mres {
            Err(e) => Err(e),
            Ok((found, end)) => {
                if spec_ws_end(s, end) != s.len() {
                    Err(DecodeError::MalformedOuter)
                } else {
                    match found {
                        None => Err(DecodeError::ResultsMissing),
                        Some(rs) => Ok(rs),
                    }
                }
            },
        }
    }
}

fn sensor_members(
    s: &Vec<u8>,
    i: usize,
    id: Option<u64>,
    label: Option<Vec<u8>>,
    st: Option<Stats>,
) -> (r: Result<(Sensor, usize), DecodeError>)
    requires
        i <= s@.len(),
    ensures
        match r {
            Ok((sn, e)) => spec_sensor_members(s@, i as int, id, spec_opt_bytes(label), st)
                == Ok::<_, DecodeError>((sn@, e as int)) && e <= s@.len(),
            Err(e) => spec_sensor_members(s@, i as int, id, spec_opt_bytes(label), st) == Err::<
                (SensorModel, int),
                _,
            >(e),
        },
    decreases s@.len() - i,
{
    let j1 = ws_end(s, i);
    let (k, j2) = match string_at(s, j1) {
        Ok(p) => p,
        Err(()) => {
            return Err(DecodeError::MalformedOuter);
        },
    };
    let j3 = ws_end(s, j2);
    if !(j3 < s.len() && s[j3] == 0x3a) {
        return Err(DecodeError::MalformedOuter);
    }
    let j4 = ws_end(s, j3 + 1);
    let slot = record_slot(&k);
    let (id2, label2, st2, j5): (Option<u64>, Option<Vec<u8>>, Option<Stats>, usize) = if slot
        == 0 {
        let id_digit: bool = j4 < s.len() && s[j4] >= 0x30 && s[j4] <= 0x39 && !(s[j4] == 0x30
            && j4 + 1 < s.len() && s[j4 + 1] >= 0x30 && s[j4 + 1] <= 0x39);
        if id_digit {
            match digits_loop(s, j4, 0, 18446744073709551615) {
                Err(()) => {
                    return Err(DecodeError::MalformedOuter);
                },
                Ok((val, j5)) => {
                    if id.is_some() {
                        return Err(DecodeError::MalformedOuter);
                    }
                    (Some(val), label, st, j5)
                },
            }
        } else {
            return Err(DecodeError::MalformedOuter);
        }
    } else if slot == 1 {
        match string_at(s, j4) {
            Err(()) => {
                return Err(DecodeError::MalformedOuter);
            },
            Ok((lv, j5)) => {
                if label.is_some() {
                    return Err(DecodeError::MalformedOuter);
                }
                (id, Some(lv), st, j5)
            },
        }
    } else if slot == 2 {
        if !(j4 < s.len() && s[j4] == 0x22) {
            return Err(DecodeError::StatsNotString);
        }
        match string_at(s, j4) {
            Err(()) => {
                return Err(DecodeError::MalformedOuter);
            },
            Ok((content, j5)) => {
                if st.is_some() {
                    return Err(DecodeError::MalformedOuter);
                }
                match stats_doc(&content) {
                    Err(e) => {
                        return Err(e);
                    },
                    Ok(sv) => (id, label, Some(sv), j5),
                }
            },
        }
    } else {
        match skip_json(s, j4) {
            Err(()) => {
                return Err(DecodeError::MalformedOuter);
            },
            Ok(j5) => (id, label, st, j5),
        }
    };
    let j6 = ws_end(s, j5);
    if j6 < s.len() && s[j6] == 0x2c {
        if i < j6 + 1 {
            sensor_members(s, j6 + 1, id2, label2, st2)
        } else {
            Err(DecodeError::MalformedOuter)
        }
    } else if j6 < s.len() && s[j6] == 0x7d {
        match (id2, label2, st2) {
            (Some(idv), Some(lv), Some(sv)) => Ok(
                (Sensor { id: idv, label: lv, stats: sv }, j6 + 1),
            ),
            _ => Err(DecodeError::RecordFieldMissing),
        }
    } else {
        Err(DecodeError::MalformedOuter)
    }
}

/// The bytes of an optional label, as a specification value.
pub open spec fn spec_opt_bytes(o: Option<Vec<u8>>) -> Option<Seq<u8>> {
    match o {
        Some(v) => Some(v@),
        None => None,
    }
}

fn sensor_at(s: &Vec<u8>, i: usize) -> (r: Result<(Sensor, usize), DecodeError>)
    requires
        i <= s@.len(),
    ensures
        match r {
            Ok((sn, e)) => spec_sensor_at(s@, i as int) == Ok::<_, DecodeError>((sn@, e as int))
                && e <= s@.len(),
            Err(e) => spec_sensor_at(s@, i as int) == Err::<(SensorModel, int), _>(e),
        },
{
    let j0 = ws_end(s, i);
    if !(j0 < s.len() && s[j0] == 0x7b) {
        return Err(DecodeError::MalformedOuter);
    }
    let j1 = ws_end(s, j0 + 1);
    if j1 < s.len() && s[j1] == 0x7d {
        return Err(DecodeError::RecordFieldMissing);
    }
    sensor_members(s, j0 + 1, None, None, None)
}

proof fn lemma_sensors_view_push(v: Seq<Sensor>, x: Sensor)
    ensures
        spec_sensors_view(v.push(x)) == spec_sensors_view(v).push(x@),
{
    assert(spec_sensors_view(v.push(x)) =~= spec_sensors_view(v).push(x@));
}

fn results_items(s: &Vec<u8>, i: usize, acc: Vec<Sensor>) -> (r: Result<
    (Vec<Sensor>, usize),
    DecodeError,
>)
    requires
        i <= s@.len(),
    ensures
        match r {
            Ok((v, e)) => spec_results_items(s@, i as int, spec_sensors_view(acc@)) == Ok::<
                _,
                DecodeError,
            >((spec_sensors_view(v@), e as int)) && e <= s@.len(),
            Err(e) => spec_results_items(s@, i as int, spec_sensors_view(acc@)) == Err::<
                (Seq<SensorModel>, int),
                _,
            >(e),
        },
    decreases s@.len() - i,
{
    let (sn, j5) = match sensor_at(s, i) {
        Err(e) => {
            return Err(e);
        },
        Ok(p) => p,
    };
    let j6 = ws_end(s, j5);
    proof {
        lemma_sensors_view_push(acc@, sn);
    }
    if j6 < s.len() && s[j6] == 0x2c {
        if i < j6 + 1 {
            let mut acc2 = acc;
            acc2.push(sn);
            results_items(s, j6 + 1, acc2)
        } else {
            Err(DecodeError::MalformedOuter)
        }
    } else if j6 < s.len() && s[j6] == 0x5d {
        let mut acc2 = acc;
        acc2.push(sn);
        Ok((acc2, j6 + 1))
    } else {
        Err(DecodeError::MalformedOuter)
    }
}

fn results_array(s: &Vec<u8>, i: usize) -> (r: Result<(Vec<Sensor>, usize), DecodeError>)
    requires
        i < s@.len(),
    ensures
        match r {
            Ok((v, e)) => spec_results_array(s@, i as int) == Ok::<_, DecodeError>((
                spec_sensors_view(v@),
                e as int,
            )) && e <= s@.len(),
            Err(e) => spec_results_array(s@, i as int) == Err::<(Seq<SensorModel>, int), _>(e),
        },
{
    let n: usize = s.len();
    assert(i < n);
    let j1 = ws_end(s, i + 1);
    if j1 < s.len() && s[j1] == 0x5d {
        let empty: Vec<Sensor> = Vec::new();
        proof {
            assert(spec_sensors_view(empty@) =~= Seq::<SensorModel>::empty());
        }
        Ok((empty, j1 + 1))
    } else {
        let empty: Vec<Sensor> = Vec::new();
        proof {
            assert(spec_sensors_view(empty@) =~= Seq::<SensorModel>::empty());
        }
        results_items(s, i + 1, empty)
    }
}

fn outer_members(s: &Vec<u8>, i: usize, found: Option<Vec<Sensor>>) -> (r: Result<
    (Option<Vec<Sensor>>, usize),
    DecodeError,
>)
    requires
        i <= s@.len(),
    ensures
        match r {
            Ok((f, e)) => spec_outer_members(s@, i as int, spec_opt_sensors(found)) == Ok::<
                _,
                DecodeError,
            >((spec_opt_sensors(f), e as int)) && e <= s@.len(),
            Err(e) => spec_outer_members(s@, i as int, spec_opt_sensors(found)) == Err::<
                (Option<Seq<SensorModel>>, int),
                _,
            >(e),
        },
    decreases s@.len() - i,
{
    let j1 = ws_end(s, i);
    let (k, j2) = match string_at(s, j1) {
        Ok(p) => p,
        Err(()) => {
            return Err(DecodeError::MalformedOuter);
        },
    };
    let j3 = ws_end(s, j2);
    if !(j3 < s.len() && s[j3] == 0x3a) {
        return Err(DecodeError::MalformedOuter);
    }
    let j4 = ws_end(s, j3 + 1);
    let (found2, j5): (Option<Vec<Sensor>>, usize) = if is_results_key(&k) {
        if found.is_some() {
            return Err(DecodeError::ResultsMissing);
        }
        if j4 < s.len() && s[j4] == 0x5b {
            match results_array(s, j4) {
                Err(e) => {
                    return Err(e);
                },
                Ok((rs, j5)) => (Some(rs), j5),
            }
        } else {
            return Err(DecodeError::ResultsMissing);
        }
    } else {
        match skip_json(s, j4) {
            Err(()) => {
                return Err(DecodeError::MalformedOuter);
            },
            Ok(j5) => (found, j5),
        }
    };
    let j6 = ws_end(s, j5);
    if j6 < s.len() && s[j6] == 0x2c {
        if i < j6 + 1 {
            outer_members(s, j6 + 1, found2)
        } else {
            Err(DecodeError::MalformedOuter)
        }
    } else if j6 < s.len() && s[j6] == 0x7d {
        Ok((found2, j6 + 1))
    } else {
        Err(DecodeError::MalformedOuter)
    }
}

/// The records held by an optional results array, as a specification value.
pub open spec fn spec_opt_sensors(o: Option<Vec<Sensor>>) -> Option<Seq<SensorModel>> {
    match o {
        Some(v) => Some(spec_sensors_view(v@)),
        None => None,
    }
}

/// Decode a provider document.  The result is exactly what `spec_decode`
/// says of the bytes: the decoded records on success, and the error kind
/// that rejects the document otherwise.
pub fn decode(s: &Vec<u8>) -> (r: Result<Response, DecodeError>)
    ensures
        match r {
            Ok(resp) => spec_decode(s@) == Ok::<_, DecodeError>(resp@),
            Err(e) => spec_decode(s@) == Err::<Seq<SensorModel>, _>(e),
        },
{
    let i0 = ws_end(s, 0);
    if !(i0 < s.len() && s[i0] == 0x7b) {
        return Err(DecodeError::MalformedOuter);
    }
    let i1 = ws_end(s, i0 + 1);
    let mres: Result<(Option<Vec<Sensor>>, usize), DecodeError> = if i1 < s.len() && s[i1]
        == 0x7d {
        Ok((None, i1 + 1))
    } else {
        outer_members(s, i0 + 1, None)
    };
    match mres {
        Err(e) => Err(e),
        Ok((found, end)) => {
            if ws_end(s, end) != s.len() {
                Err(DecodeError::MalformedOuter)
            } else {
                match found {
                    None => Err(DecodeError::ResultsMissing),
                    Some(rs) => Ok(Response { results: rs }),
                }
            }
        },
    }
}

} // verus!
