//! One poll cycle's decisions: which notifications the cycle emits, given
//! the raw outcome of reading each monitored battery's attribute files.
//!
//! The surrounding program reads the files, hands the outcomes in as
//! `BatterySample` values, and delivers the returned notices; everything
//! decided in between is verified here.

use vstd::prelude::*;

use crate::aggregate::{
    any_charging, combine_energy, combine_status, percent_of, sum_full, AggregationError,
    EnergyReading, MAX_READINGS,
};
use crate::reader::{
    classify_spec, raw_view, read_energy, read_energy_spec, status, BatteryStatus, ReadError,
    ReadErrorSpec,
};
use crate::text::{dec_seq, push_dec, trimmed};

verus! {

/// The outcome of reading one battery's three attribute files, as the
/// file-reading capability reported it: each field holds the file's text,
/// or a description of the read failure.
#[derive(Debug, PartialEq, Eq)]
pub struct BatterySample {
    pub status_text: Result<String, String>,
    pub full_text: Result<String, String>,
    pub now_text: Result<String, String>,
}

/// Mathematical model of a `BatterySample`.
pub struct SampleSpec {
    pub status_text: Result<Seq<char>, Seq<char>>,
    pub full_text: Result<Seq<char>, Seq<char>>,
    pub now_text: Result<Seq<char>, Seq<char>>,
}

impl View for BatterySample {
    type V = SampleSpec;

    open spec fn view(&self) -> SampleSpec {
        SampleSpec {
            status_text: raw_view(self.status_text),
            full_text: raw_view(self.full_text),
            now_text: raw_view(self.now_text),
        }
    }
}

/// The models of a sequence of samples.
pub open spec fn samples_view(s: Seq<BatterySample>) -> Seq<SampleSpec> {
    s.map_values(|b: BatterySample| b@)
}

/// Failure to obtain the combined charge percentage: an attribute file
/// could not be read, or held no valid integer, or every battery reported
/// a full capacity of zero.
#[derive(Debug, PartialEq, Eq)]
pub enum LevelError {
    Io(String),
    Parse,
    ZeroCapacity,
}

/// Mathematical model of a `LevelError`.
pub enum LevelErrorSpec {
    Io(Seq<char>),
    Parse,
    ZeroCapacity,
}

impl View for LevelError {
    type V = LevelErrorSpec;

    open spec fn view(&self) -> LevelErrorSpec {
        match self {
            LevelError::Io(d) => LevelErrorSpec::Io(d@),
            LevelError::Parse => LevelErrorSpec::Parse,
            LevelError::ZeroCapacity => LevelErrorSpec::ZeroCapacity,
        }
    }
}

/// The model of a `percent_combined` result.
pub open spec fn level_result_view(r: Result<u8, LevelError>) -> Result<u8, LevelErrorSpec> {
    match r {
        Ok(p) => Ok(p),
        Err(e) => Err(e@),
    }
}

/// The level failure that a failed attribute read denotes.
pub open spec fn level_of_read_spec(e: ReadErrorSpec) -> LevelErrorSpec {
    match e {
        ReadErrorSpec::Io(d) => LevelErrorSpec::Io(d),
        ReadErrorSpec::Parse => LevelErrorSpec::Parse,
    }
}

fn level_of_read(e: ReadError) -> (r: LevelError)
    ensures
        r@ == level_of_read_spec(e@),
{
    match e {
        ReadError::Io(d) => LevelError::Io(d),
        ReadError::Parse => LevelError::Parse,
    }
}

/// The notification body that a level failure is described with.
pub open spec fn level_error_body_spec(e: LevelErrorSpec) -> Seq<char> {
    match e {
        LevelErrorSpec::Io(d) => d,
        LevelErrorSpec::Parse => "invalid energy value"@,
        LevelErrorSpec::ZeroCapacity => "Total full energy is zero"@,
    }
}

impl LevelError {
    /// A human-readable description of the failure, for a notification
    /// body: a read failure keeps the capability's own description.
    pub fn body_text(self) -> (r: String)
        ensures
            r@ == level_error_body_spec(self@),
    {
        match self {
            LevelError::Io(d) => d,
            LevelError::Parse => String::from_str("invalid energy value"),
            LevelError::ZeroCapacity => String::from_str("Total full energy is zero"),
        }
    }
}

/// What one sample contributes to the combined percentage: its two energy
/// values, or the first failure among them (full capacity is read before
/// current energy).
pub open spec fn sample_reading(s: SampleSpec) -> Result<EnergyReading, LevelErrorSpec> {
    match read_energy_spec(s.full_text) {
        Err(e) => Err(level_of_read_spec(e)),
        Ok(f) => match read_energy_spec(s.now_text) {
            Err(e) => Err(level_of_read_spec(e)),
            Ok(n) => Ok(EnergyReading { full_capacity: f, current_energy: n }),
        },
    }
}

/// The energy readings of all samples, or the first failure in battery
/// order.
pub open spec fn readings_of(ss: Seq<SampleSpec>) -> Result<Seq<EnergyReading>, LevelErrorSpec>
    decreases ss.len(),
{
    if ss.len() == 0 {
        Ok(Seq::empty())
    } else {
        match readings_of(ss.drop_last()) {
            Err(e) => Err(e),
            Ok(rs) => match sample_reading(ss.last()) {
                Err(e) => Err(e),
                Ok(r) => Ok(rs.push(r)),
            },
        }
    }
}

/// What `percent_combined` returns: the combined percentage of all
/// samples' readings, or the first read or parse failure, or
/// `ZeroCapacity` when the readings sum to no full capacity.
pub open spec fn level_spec(ss: Seq<SampleSpec>) -> Result<u8, LevelErrorSpec> {
    match readings_of(ss) {
        Err(e) => Err(e),
        Ok(rs) => if sum_full(rs) > 0 {
            Ok(percent_of(rs) as u8)
        } else {
            Err(LevelErrorSpec::ZeroCapacity)
        },
    }
}

proof fn lemma_readings_prefix_error(ss: Seq<SampleSpec>, i: int)
    requires
        0 <= i < ss.len(),
        readings_of(ss.take(i)) is Ok,
        sample_reading(ss[i]) is Err,
    ensures
        readings_of(ss) == Result::<Seq<EnergyReading>, LevelErrorSpec>::Err(
            sample_reading(ss[i])->Err_0,
        ),
    decreases ss.len(),
{
    if i == ss.len() - 1 {
        assert(ss.drop_last() =~= ss.take(i));
    } else {
        assert(ss.drop_last().take(i) =~= ss.take(i));
        lemma_readings_prefix_error(ss.drop_last(), i);
        assert(ss.drop_last()[i] == ss[i]);
    }
}

/// Sums every sample's energy readings and forms the combined charge
/// percentage. Fails on the first unreadable or unparsable attribute, in
/// battery order (full capacity before current energy), and with
/// `ZeroCapacity` when all capacities sum to zero.
pub fn percent_combined(samples: &Vec<BatterySample>) -> (r: Result<u8, LevelError>)
    requires
        samples@.len() <= MAX_READINGS,
    ensures
        level_result_view(r) == level_spec(samples_view(samples@)),
{
    let ghost sv = samples_view(samples@);
    let n = samples.len();
    let mut readings: Vec<EnergyReading> = Vec::new();
    let mut i: usize = 0;
    while i < n
        invariant
            0 <= i <= n,
            n == samples@.len() <= MAX_READINGS,
            sv == samples_view(samples@),
            readings@.len() == i,
            readings_of(sv.take(i as int)) == Result::<Seq<EnergyReading>, LevelErrorSpec>::Ok(
                readings@,
            ),
        decreases n - i,
    {
        proof {
            assert(sv.take(i + 1).drop_last() =~= sv.take(i as int));
            assert(sv.take(i + 1).last() == samples@[i as int]@);
        }
        let sample = &samples[i];
        let full = match read_energy(&sample.full_text) {
            Ok(v) => v,
            Err(e) => {
                proof {
                    lemma_readings_prefix_error(sv, i as int);
                }
                return Err(level_of_read(e));
            },
        };
        let now = match read_energy(&sample.now_text) {
            Ok(v) => v,
            Err(e) => {
                proof {
                    lemma_readings_prefix_error(sv, i as int);
                }
                return Err(level_of_read(e));
            },
        };
        readings.push(EnergyReading { full_capacity: full, current_energy: now });
        i = i + 1;
    }
    proof {
        assert(sv.take(n as int) =~= sv);
    }
    match combine_energy(&readings) {
        Ok(p) => Ok(p),
        Err(AggregationError::ZeroCapacity) => Err(LevelError::ZeroCapacity),
    }
}

/// The critical-battery rule: alert exactly when no battery is charging
/// and the combined percentage lies strictly below the threshold.
pub fn should_alert(charging: bool, percent: u8, threshold: u8) -> (r: bool)
    ensures
        r == (!charging && percent < threshold),
{
    !charging && percent < threshold
}

/// The kind of notification a cycle emits.
#[derive(Clone, Copy, Debug, PartialEq, Eq, Structural)]
pub enum NoticeKind {
    StatusReadFailed,
    LevelReadFailed,
    BatteryCritical,
}

/// One notification to deliver: its kind (which fixes the summary line),
/// its body, and how many seconds it stays visible (`0`: until dismissed).
#[derive(Debug, PartialEq, Eq)]
pub struct Notice {
    pub kind: NoticeKind,
    pub body: String,
    pub timeout: u64,
}

/// Mathematical model of a `Notice`.
pub struct NoticeSpec {
    pub kind: NoticeKind,
    pub body: Seq<char>,
    pub timeout: u64,
}

impl View for Notice {
    type V = NoticeSpec;

    open spec fn view(&self) -> NoticeSpec {
        NoticeSpec { kind: self.kind, body: self.body@, timeout: self.timeout }
    }
}

/// The models of a sequence of notices.
pub open spec fn notices_view(s: Seq<Notice>) -> Seq<NoticeSpec> {
    s.map_values(|n: Notice| n@)
}

/// The summary line of each notice kind.
pub open spec fn summary_spec(k: NoticeKind) -> Seq<char> {
    match k {
        NoticeKind::StatusReadFailed => "Reading Battery Status Failed!"@,
        NoticeKind::LevelReadFailed => "Reading Battery Level Failed!"@,
        NoticeKind::BatteryCritical => "Battery Level Critical!"@,
    }
}

impl Notice {
    /// The notification's summary line.
    pub fn summary(&self) -> (r: &'static str)
        ensures
            r@ == summary_spec(self.kind),
    {
        match self.kind {
            NoticeKind::StatusReadFailed => "Reading Battery Status Failed!",
            NoticeKind::LevelReadFailed => "Reading Battery Level Failed!",
            NoticeKind::BatteryCritical => "Battery Level Critical!",
        }
    }
}

/// The statuses of the batteries whose status file was readable, in
/// battery order; a failed status read contributes nothing.
pub open spec fn ok_statuses(ss: Seq<SampleSpec>) -> Seq<BatteryStatus>
    decreases ss.len(),
{
    if ss.len() == 0 {
        Seq::empty()
    } else {
        let rest = ok_statuses(ss.drop_last());
        match ss.last().status_text {
            Ok(t) => rest.push(classify_spec(trimmed(t))),
            Err(_) => rest,
        }
    }
}

/// One failure notice per battery whose status file could not be read, in
/// battery order, each persistent (timeout `0`) and carrying the read
/// failure's description.
pub open spec fn status_failure_notices(ss: Seq<SampleSpec>) -> Seq<NoticeSpec>
    decreases ss.len(),
{
    if ss.len() == 0 {
        Seq::empty()
    } else {
        let rest = status_failure_notices(ss.drop_last());
        match ss.last().status_text {
            Ok(_) => rest,
            Err(d) => rest.push(
                NoticeSpec { kind: NoticeKind::StatusReadFailed, body: d, timeout: 0 },
            ),
        }
    }
}

/// The notices that close a cycle after the status checks: one persistent
/// failure notice when the combined percentage cannot be formed; one
/// critical-battery notice, bodied with the percentage and a `%` sign,
/// when no readable battery is charging and the percentage lies strictly
/// below the threshold; none otherwise.
pub open spec fn level_notices(ss: Seq<SampleSpec>, threshold: u8, timeout: u64) -> Seq<
    NoticeSpec,
> {
    match level_spec(ss) {
        Err(e) => seq![
            NoticeSpec {
                kind: NoticeKind::LevelReadFailed,
                body: level_error_body_spec(e),
                timeout: 0,
            },
        ],
        Ok(p) => if !any_charging(ok_statuses(ss)) && p < threshold {
            seq![
                NoticeSpec {
                    kind: NoticeKind::BatteryCritical,
                    body: dec_seq(p as int).push('%'),
                    timeout: timeout,
                },
            ]
        } else {
            Seq::empty()
        },
    }
}

/// Every notification one poll cycle emits, in emission order: the status
/// read failures first, then the level failure or critical-battery
/// notice, if any.
pub open spec fn cycle_spec(ss: Seq<SampleSpec>, threshold: u8, timeout: u64) -> Seq<
    NoticeSpec,
> {
    status_failure_notices(ss) + level_notices(ss, threshold, timeout)
}

proof fn lemma_status_failure_kinds(ss: Seq<SampleSpec>)
    ensures
        forall|i: int|
            0 <= i < status_failure_notices(ss).len() ==> status_failure_notices(ss)[i].kind
                == NoticeKind::StatusReadFailed,
    decreases ss.len(),
{
    if ss.len() > 0 {
        lemma_status_failure_kinds(ss.drop_last());
    }
}

/// Law: a poll cycle emits a critical-battery notice if and only if the
/// combined percentage was obtained, no readable battery reports
/// `Charging`, and the percentage lies strictly below the threshold.
pub proof fn lemma_critical_notice_iff(ss: Seq<SampleSpec>, threshold: u8, timeout: u64)
    ensures
        (exists|i: int|
            0 <= i < cycle_spec(ss, threshold, timeout).len() && cycle_spec(
                ss,
                threshold,
                timeout,
            )[i].kind == NoticeKind::BatteryCritical) <==> (level_spec(ss) is Ok && !any_charging(
            ok_statuses(ss),
        ) && level_spec(ss)->Ok_0 < threshold),
{
    lemma_status_failure_kinds(ss);
    let cs = cycle_spec(ss, threshold, timeout);
    let sfn = status_failure_notices(ss);
    if level_spec(ss) is Ok && !any_charging(ok_statuses(ss)) && level_spec(ss)->Ok_0
        < threshold {
        assert(cs[cs.len() - 1].kind == NoticeKind::BatteryCritical);
    } else {
        assert forall|i: int| 0 <= i < cs.len() implies cs[i].kind
            != NoticeKind::BatteryCritical by {
            if i < sfn.len() {
                assert(cs[i] == sfn[i]);
            }
        }
    }
}

/// The percentage `p` written in decimal with a trailing `%`, as a
/// critical-battery notification's body.
pub fn percent_body(p: u8) -> (r: String)
    ensures
        r@ == dec_seq(p as int).push('%'),
{
    let mut s = String::new();
    push_dec(&mut s, p);
    s.append("%");
    proof {
        reveal_strlit("%");
        assert(s@ =~= dec_seq(p as int).push('%'));
    }
    s
}

/// Decides one poll cycle: classifies every battery's status, emits one
/// persistent failure notice per unreadable status file (those batteries
/// take no part in the charging check), then forms the combined
/// percentage and emits either a persistent level-failure notice or, when
/// the critical-battery rule holds, a critical notice with the configured
/// timeout. Returns the notices in emission order.
pub fn cycle(samples: &Vec<BatterySample>, threshold: u8, timeout: u64) -> (r: Vec<Notice>)
    requires
        samples@.len() <= MAX_READINGS,
    ensures
        notices_view(r@) == cycle_spec(samples_view(samples@), threshold, timeout),
{
    let ghost sv = samples_view(samples@);
    let n = samples.len();
    let mut notices: Vec<Notice> = Vec::new();
    let mut statuses: Vec<BatteryStatus> = Vec::new();
    let mut i: usize = 0;
    while i < n
        invariant
            0 <= i <= n,
            n == samples@.len() <= MAX_READINGS,
            sv == samples_view(samples@),
            statuses@ == ok_statuses(sv.take(i as int)),
            notices_view(notices@) == status_failure_notices(sv.take(i as int)),
        decreases n - i,
    {
        proof {
            assert(sv.take(i + 1).drop_last() =~= sv.take(i as int));
            assert(sv.take(i + 1).last() == samples@[i as int]@);
        }
        match status(&samples[i].status_text) {
            Ok(st) => {
                statuses.push(st);
            },
            Err(e) => {
                // `status` only ever fails with `Io`; the `Parse` arm is
                // unreachable, which its contract shows.
                let body = match e {
                    ReadError::Io(d) => d,
                    ReadError::Parse => String::new(),
                };
                let nt = Notice { kind: NoticeKind::StatusReadFailed, body, timeout: 0 };
                notices.push(nt);
                proof {
                    assert(notices_view(notices@) =~= status_failure_notices(
                        sv.take(i + 1),
                    ));
                }
            },
        }
        i = i + 1;
    }
    proof {
        assert(sv.take(n as int) =~= sv);
    }
    let charging = combine_status(&statuses);
    match percent_combined(samples) {
        Ok(p) => {
            if should_alert(charging, p, threshold) {
                let nt = Notice {
                    kind: NoticeKind::BatteryCritical,
                    body: percent_body(p),
                    timeout,
                };
                notices.push(nt);
                proof {
                    assert(notices_view(notices@) =~= cycle_spec(sv, threshold, timeout));
                }
            } else {
                proof {
                    assert(notices_view(notices@) =~= cycle_spec(sv, threshold, timeout));
                }
            }
        },
        Err(e) => {
            let nt = Notice {
                kind: NoticeKind::LevelReadFailed,
                body: e.body_text(),
                timeout: 0,
            };
            notices.push(nt);
            proof {
                assert(notices_view(notices@) =~= cycle_spec(sv, threshold, timeout));
            }
        },
    }
    notices
}

} // verus!
