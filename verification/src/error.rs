//! Errors of the engine's operations.
use vstd::prelude::*;

verus! {

/// Why an operation of the engine failed.
#[derive(Debug, PartialEq, Eq)]
pub enum EngineError {
    /// A string argument holds a NUL character, so it has no C encoding.
    NulInString,
    /// The engine could not be created.
    CreateFailed,
    /// Topology discovery failed.
    DiscoverTopologyFailed,
    /// The transport named `proto` could not be installed.
    InstallTransportFailed { proto: String },
    /// The engine did not report its local session.
    LocalSessionFailed,
    /// The local session the engine reported is not UTF-8; `detail` says why.
    InvalidSession { detail: String },
    /// Registering local memory failed.
    RegisterFailed,
    /// Unregistering local memory failed.
    UnregisterFailed,
    /// No batch ID could be allocated.
    AllocateBatchIdFailed,
    /// Submitting a transfer batch failed.
    SubmitFailed,
    /// The status of a transfer could not be read.
    GetTransferStatusFailed,
    /// Freeing a batch ID failed.
    FreeBatchIdFailed,
    /// Opening a segment failed.
    OpenSegmentFailed,
    /// Closing the segment `segment_id` failed.
    CloseSegmentFailed { segment_id: i32 },
    /// Warming up the endpoints of segment `name` failed with `code`.
    WarmupFailed { name: String, code: i32 },
    /// Synchronizing the segment cache failed.
    SyncSegmentCacheFailed,
}

/// The character of the decimal digit `d`.
pub open spec fn digit_char(d: nat) -> char
    recommends
        d < 10,
{
    (d + 48) as char
}

/// The decimal digits of `n`, most significant first, without leading zeros.
pub open spec fn decimal_digits(n: nat) -> Seq<char>
    decreases n,
{
    if n < 10 {
        seq![digit_char(n)]
    } else {
        decimal_digits(n / 10).push(digit_char(n % 10))
    }
}

/// The decimal notation of `i`: its digits, after a minus sign when negative.
pub open spec fn decimal(i: int) -> Seq<char> {
    if i < 0 {
        seq!['-'] + decimal_digits((-i) as nat)
    } else {
        decimal_digits(i as nat)
    }
}

fn digit_str(d: u64) -> (s: &'static str)
    requires
        d < 10,
    ensures
        s@ == seq![digit_char(d as nat)],
{
    if d == 0 {
        proof { reveal_strlit("0"); }
        "0"
    } else if d == 1 {
        proof { reveal_strlit("1"); }
        "1"
    } else if d == 2 {
        proof { reveal_strlit("2"); }
        "2"
    } else if d == 3 {
        proof { reveal_strlit("3"); }
        "3"
    } else if d == 4 {
        proof { reveal_strlit("4"); }
        "4"
    } else if d == 5 {
        proof { reveal_strlit("5"); }
        "5"
    } else if d == 6 {
        proof { reveal_strlit("6"); }
        "6"
    } else if d == 7 {
        proof { reveal_strlit("7"); }
        "7"
    } else if d == 8 {
        proof { reveal_strlit("8"); }
        "8"
    } else {
        proof { reveal_strlit("9"); }
        "9"
    }
}

fn decimal_u64(n: u64) -> (s: String)
    ensures
        s@ == decimal_digits(n as nat),
    decreases n,
{
    if n < 10 {
        String::from_str(digit_str(n))
    } else {
        let mut s = decimal_u64(n / 10);
        s.append(digit_str(n % 10));
        s
    }
}

/// The decimal notation of `i`, as `Display` writes an `i32`.
pub fn decimal_i32(i: i32) -> (s: String)
    ensures
        s@ == decimal(i as int),
{
    if i < 0 {
        let magnitude: u64 = (0i64 - (i as i64)) as u64;
        let mut s = String::from_str("-");
        proof { reveal_strlit("-"); }
        let digits = decimal_u64(magnitude);
        s.append(digits.as_str());
        s
    } else {
        decimal_u64(i as u64)
    }
}

impl EngineError {
    /// The text that describes the error.
    pub open spec fn spec_message(self) -> Seq<char> {
        match self {
            EngineError::NulInString => "CString::new failed"@,
            EngineError::CreateFailed => "Failed to create TransferEngine"@,
            EngineError::DiscoverTopologyFailed => "Failed to discover topology"@,
            EngineError::InstallTransportFailed { proto } =>
                "Failed to install transport '"@ + proto@ + "'"@,
            EngineError::LocalSessionFailed => "Failed to get local Transfer Engine session"@,
            EngineError::InvalidSession { detail } =>
                "Invalid local Transfer Engine session: "@ + detail@,
            EngineError::RegisterFailed => "Failed to register local memory"@,
            EngineError::UnregisterFailed => "Failed to unregister local memory"@,
            EngineError::AllocateBatchIdFailed => "Failed to allocate batch ID"@,
            EngineError::SubmitFailed => "Failed to submit transfer"@,
            EngineError::GetTransferStatusFailed => "Failed to get transfer status"@,
            EngineError::FreeBatchIdFailed => "Failed to free batch ID"@,
            EngineError::OpenSegmentFailed => "Failed to get segment ID"@,
            EngineError::CloseSegmentFailed { segment_id } =>
                "Failed to close segment with ID "@ + decimal(segment_id as int),
            EngineError::WarmupFailed { name, code } =>
                "warmupEfaSegment failed for "@ + name@ + ": "@ + decimal(code as int),
            EngineError::SyncSegmentCacheFailed => "Failed to synchronize segment cache"@,
        }
    }

    /// The text that describes the error.
    pub fn message(&self) -> (m: String)
        ensures
            m@ == self.spec_message(),
    {
        match self {
            EngineError::NulInString => String::from_str("CString::new failed"),
            EngineError::CreateFailed => String::from_str("Failed to create TransferEngine"),
            EngineError::DiscoverTopologyFailed => String::from_str("Failed to discover topology"),
            EngineError::InstallTransportFailed { proto } => {
                let mut m = String::from_str("Failed to install transport '");
                m.append(proto.as_str());
                m.append("'");
                m
            },
            EngineError::LocalSessionFailed => String::from_str(
                "Failed to get local Transfer Engine session",
            ),
            EngineError::InvalidSession { detail } => {
                let mut m = String::from_str("Invalid local Transfer Engine session: ");
                m.append(detail.as_str());
                m
            },
            EngineError::RegisterFailed => String::from_str("Failed to register local memory"),
            EngineError::UnregisterFailed => String::from_str("Failed to unregister local memory"),
            EngineError::AllocateBatchIdFailed => String::from_str("Failed to allocate batch ID"),
            EngineError::SubmitFailed => String::from_str("Failed to submit transfer"),
            EngineError::GetTransferStatusFailed => String::from_str(
                "Failed to get transfer status",
            ),
            EngineError::FreeBatchIdFailed => String::from_str("Failed to free batch ID"),
            EngineError::OpenSegmentFailed => String::from_str("Failed to get segment ID"),
            EngineError::CloseSegmentFailed { segment_id } => {
                let mut m = String::from_str("Failed to close segment with ID ");
                let id = decimal_i32(*segment_id);
                m.append(id.as_str());
                m
            },
            EngineError::WarmupFailed { name, code } => {
                let mut m = String::from_str("warmupEfaSegment failed for ");
                m.append(name.as_str());
                m.append(": ");
                let c = decimal_i32(*code);
                m.append(c.as_str());
                m
            },
            EngineError::SyncSegmentCacheFailed => String::from_str(
                "Failed to synchronize segment cache",
            ),
        }
    }
}

} // verus!
