//! The small decision logic of the surrounding command-line layer: the
//! output mode and the multisig settings rule. The I/O around them lives
//! outside this crate.

use vstd::prelude::*;
use vstd::string::StringSliceAdditionalSpecFns;

verus! {

/// The bytes of the word selecting human-readable output.
pub open spec fn text_mode_bytes() -> Seq<u8> {
    seq![116u8, 101u8, 120u8, 116u8]
}

/// The bytes of the word selecting machine-readable output.
pub open spec fn json_mode_bytes() -> Seq<u8> {
    seq![106u8, 115u8, 111u8, 110u8]
}

/// How results are printed.
#[derive(Copy, Clone, Debug, PartialEq, Eq)]
pub enum OutputMode {
    /// Output human-readable text to stdout.
    Text,
    /// Output machine-readable json to stdout.
    Json,
}

impl OutputMode {
    /// Parses an output mode: exactly the word "text" or the word "json"
    /// is accepted.
    pub fn from_str(s: &str) -> (r: Result<OutputMode, &'static str>)
        ensures
            s.spec_bytes() == text_mode_bytes() <==> r == Ok::<OutputMode, &'static str>(
                OutputMode::Text,
            ),
            s.spec_bytes() == json_mode_bytes() <==> r == Ok::<OutputMode, &'static str>(
                OutputMode::Json,
            ),
            r is Err <==> s.spec_bytes() != text_mode_bytes() && s.spec_bytes()
                != json_mode_bytes(),
    {
        let b = s.as_bytes();
        if b.len() == 4 && b[0] == 116 && b[1] == 101 && b[2] == 120 && b[3] == 116 {
            proof {
                assert(s.spec_bytes() =~= text_mode_bytes());
            }
            Ok(OutputMode::Text)
        } else if b.len() == 4 && b[0] == 106 && b[1] == 115 && b[2] == 111 && b[3] == 110 {
            proof {
                assert(s.spec_bytes() =~= json_mode_bytes());
            }
            Ok(OutputMode::Json)
        } else {
            Err("Invalid output mode, expected 'text' or 'json'.")
        }
    }
}

/// Why a multisig threshold/owner combination is nonsensical.
#[derive(Copy, Clone, Debug, PartialEq, Eq)]
pub enum MultisigSettingsError {
    /// The threshold exceeds the number of owners.
    ThresholdTooLarge,
    /// The threshold is zero.
    ThresholdZero,
}

/// Rules out nonsensical multisig settings: the threshold must be at most
/// the number of owners, and at least one.
pub fn validate_multisig_settings(threshold: u64, owner_count: u64) -> (r: Result<
    (),
    MultisigSettingsError,
>)
    ensures
        r == if threshold > owner_count {
            Err::<(), MultisigSettingsError>(MultisigSettingsError::ThresholdTooLarge)
        } else if threshold == 0 {
            Err::<(), MultisigSettingsError>(MultisigSettingsError::ThresholdZero)
        } else {
            Ok::<(), MultisigSettingsError>(())
        },
{
    if threshold > owner_count {
        return Err(MultisigSettingsError::ThresholdTooLarge);
    }
    if threshold == 0 {
        return Err(MultisigSettingsError::ThresholdZero);
    }
    Ok(())
}

} // verus!
