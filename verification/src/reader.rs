//! Battery attribute readers: classifying the `status` attribute text and
//! parsing the `energy_full` / `energy_now` attribute text.
//!
//! The host's file-reading capability is outside this crate; its outcome is
//! handed in as a `Result<String, String>` (the file's text, or a
//! description of the read failure).

use vstd::prelude::*;

use crate::text::{parse_u64, parsed_u64, parses_to_u64, trim_str, trimmed};

verus! {

/// Tri-state classification of one battery's `status` attribute.
#[derive(Clone, Copy, Debug, PartialEq, Eq, Structural)]
pub enum BatteryStatus {
    Discharging,
    Charging,
    Unknown,
}

/// Failure to obtain one attribute's value: the file could not be read
/// (with the capability's description of the fault), or its content is not
/// a valid non-negative integer.
#[derive(Debug, PartialEq, Eq)]
pub enum ReadError {
    Io(String),
    Parse,
}

/// Mathematical model of a `ReadError`: the description as a character
/// sequence.
pub enum ReadErrorSpec {
    Io(Seq<char>),
    Parse,
}

impl View for ReadError {
    type V = ReadErrorSpec;

    open spec fn view(&self) -> ReadErrorSpec {
        match self {
            ReadError::Io(d) => ReadErrorSpec::Io(d@),
            ReadError::Parse => ReadErrorSpec::Parse,
        }
    }
}

/// Model of the file-reading capability's outcome: the file's text, or a
/// description of the read failure.
pub open spec fn raw_view(raw: Result<String, String>) -> Result<Seq<char>, Seq<char>> {
    match raw {
        Ok(t) => Ok(t@),
        Err(d) => Err(d@),
    }
}

/// The status that a battery's trimmed status text `t` denotes: only the
/// exact words `Discharging` and `Charging` are recognized; any other
/// readable text means `Unknown`.
pub open spec fn classify_spec(t: Seq<char>) -> BatteryStatus {
    if t == "Discharging"@ {
        BatteryStatus::Discharging
    } else if t == "Charging"@ {
        BatteryStatus::Charging
    } else {
        BatteryStatus::Unknown
    }
}

/// What `status` returns for a given read outcome: a read failure is
/// reported as is; readable text is trimmed and classified.
pub open spec fn status_spec(raw: Result<Seq<char>, Seq<char>>) -> Result<
    BatteryStatus,
    ReadErrorSpec,
> {
    match raw {
        Ok(t) => Ok(classify_spec(trimmed(t))),
        Err(d) => Err(ReadErrorSpec::Io(d)),
    }
}

/// What `read_energy` returns for a given read outcome: a read failure is
/// reported as is; readable text is trimmed and parsed as a non-negative
/// integer, and anything else is a parse failure.
pub open spec fn read_energy_spec(raw: Result<Seq<char>, Seq<char>>) -> Result<
    u64,
    ReadErrorSpec,
> {
    match raw {
        Ok(t) => if parses_to_u64(trimmed(t)) {
            Ok(parsed_u64(trimmed(t)) as u64)
        } else {
            Err(ReadErrorSpec::Parse)
        },
        Err(d) => Err(ReadErrorSpec::Io(d)),
    }
}

/// The model of a `status` result.
pub open spec fn status_result_view(r: Result<BatteryStatus, ReadError>) -> Result<
    BatteryStatus,
    ReadErrorSpec,
> {
    match r {
        Ok(s) => Ok(s),
        Err(e) => Err(e@),
    }
}

/// The model of a `read_energy` result.
pub open spec fn energy_result_view(r: Result<u64, ReadError>) -> Result<u64, ReadErrorSpec> {
    match r {
        Ok(v) => Ok(v),
        Err(e) => Err(e@),
    }
}

/// Compares two strings character by character.
fn str_eq(a: &str, b: &str) -> (r: bool)
    ensures
        r == (a@ == b@),
{
    let alen = a.unicode_len();
    let blen = b.unicode_len();
    if alen != blen {
        return false;
    }
    let mut i: usize = 0;
    while i < alen
        invariant
            0 <= i <= alen,
            alen == a@.len(),
            alen == b@.len(),
            forall|k: int| 0 <= k < i ==> a@[k] == b@[k],
        decreases alen - i,
    {
        if a.get_char(i) != b.get_char(i) {
            return false;
        }
        i = i + 1;
    }
    proof {
        assert(a@ =~= b@);
    }
    true
}

/// Maps a battery's trimmed status text to its classification.
pub fn classify(t: &str) -> (r: BatteryStatus)
    ensures
        r == classify_spec(t@),
{
    if str_eq(t, "Discharging") {
        BatteryStatus::Discharging
    } else if str_eq(t, "Charging") {
        BatteryStatus::Charging
    } else {
        BatteryStatus::Unknown
    }
}

/// Classifies a battery's `status` attribute from the outcome of reading
/// its file: trims the text and recognizes exactly the words `Discharging`
/// and `Charging`, reporting any other readable text as `Unknown` and a
/// read failure as `ReadError::Io`.
pub fn status(raw: &Result<String, String>) -> (r: Result<BatteryStatus, ReadError>)
    ensures
        status_result_view(r) == status_spec(raw_view(*raw)),
{
    match raw {
        Ok(t) => Ok(classify(trim_str(t.as_str()))),
        Err(d) => Err(ReadError::Io(d.clone())),
    }
}

/// Reads one energy attribute's value from the outcome of reading its
/// file: trims the text and parses it as a non-negative decimal integer,
/// reporting unparsable text as `ReadError::Parse` and a read failure as
/// `ReadError::Io`.
pub fn read_energy(raw: &Result<String, String>) -> (r: Result<u64, ReadError>)
    ensures
        energy_result_view(r) == read_energy_spec(raw_view(*raw)),
{
    match raw {
        Ok(t) => match parse_u64(trim_str(t.as_str())) {
            Some(v) => Ok(v),
            None => Err(ReadError::Parse),
        },
        Err(d) => Err(ReadError::Io(d.clone())),
    }
}

} // verus!
